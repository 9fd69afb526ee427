//! The terminal interface's state machine: which panel is open, what is
//! selected, what is being typed or confirmed, and what each key does to
//! that state and to the repository. Drawing the screen and reading keys
//! happen at the program's edge, from the panels this machine describes.
use vstd::prelude::*;

use crate::application::create_task_list::{create_outcome, fresh_list, CreateError, CreateTaskList};
use crate::application::delete_task_list::{delete_outcome, DeleteError, DeleteTaskList};
use crate::application::list_task_lists::ListTaskLists;
use crate::application::ports::{
    deleted_order, lemma_saved_in_place, list_views, lists_exactly, saved_order, IdGenerator,
    Stored, TaskListRepository,
};
use crate::application::rename_task_list::{rename_outcome, renamed, RenameError, RenameTaskList};
use crate::application::task_commands::{
    list_command_done, list_order_done, AddTask, CompleteTask, DeleteTask, ListTasks, RenameTask,
    TaskCommandError, UncompleteTask,
};
use crate::domain::colour_theme::{ColourTheme, NamedColor};
use crate::domain::task::{Task, TaskView};
use crate::domain::task_list::{
    has_title, list_completed, spec_add_task, title_index, spec_remove_task, spec_rename_task, spec_set_completed,
    task_views, TaskList, TaskListId, TaskListView,
};
use crate::text::{
    char_is_control, decimal, is_blank, is_control, is_white_space, law_trim_drops_only_surrounding_white_space, pop_char, push_char, push_decimal, trim, trimmed,
};

verus! {

/// A key press, as the interface sees it.
#[derive(Clone, Copy, Debug, PartialEq, Eq, Structural)]
pub enum Key {
    Char(char),
    Enter,
    Esc,
    Backspace,
    Up,
    Down,
    Left,
    Right,
    Tab,
    BackTab,
    Other,
}

/// Which panel has the focus: the lists, or the tasks of the list at an index.
#[derive(Clone, Copy, Debug, PartialEq, Eq, Structural)]
pub enum Mode {
    Lists,
    Tasks(usize),
}

/// What a submitted text does.
#[derive(Clone, Copy, Debug, PartialEq, Eq, Structural)]
pub enum EditAction {
    CreateList,
    RenameList(usize),
    CreateTask(usize),
    RenameTask { list_index: usize, task_index: usize },
}

/// What a confirmation does.
#[derive(Clone, Copy, Debug, PartialEq, Eq, Structural)]
pub enum ConfirmAction {
    DeleteList(usize),
    DeleteTask { list_index: usize, task_index: usize },
}

/// What the user is in the middle of.
#[derive(Clone, Copy, Debug, PartialEq, Eq, Structural)]
pub enum Interaction {
    Idle,
    Help,
    Editing(EditAction),
    Confirming(ConfirmAction),
}

struct AppState {
    lists: Vec<TaskList>,
    tasks: Vec<Task>,
    selected_list: usize,
    selected_task: usize,
    mode: Mode,
    interaction: Interaction,
    input: String,
    status: String,
}

/// What the interface holds, and the repository behind it.
pub struct AppView {
    pub lists: Seq<TaskListView>,
    pub tasks: Seq<TaskView>,
    pub selected_list: nat,
    pub selected_task: nat,
    pub mode: Mode,
    pub interaction: Interaction,
    pub input: Seq<char>,
    pub status: Seq<char>,
    pub stored: Stored,
    pub listed: Seq<TaskListView>,
    pub infallible: bool,
    pub theme: ColourTheme,
}

/// The selections point into what they select, and the task panel opens on
/// an existing list.
pub open spec fn app_wf(v: AppView) -> bool {
    &&& v.lists.len() == 0 ==> v.selected_list == 0 && v.mode == Mode::Lists
    &&& v.lists.len() > 0 ==> v.selected_list < v.lists.len()
    &&& v.mode matches Mode::Tasks(i) ==> i < v.lists.len()
    &&& v.tasks.len() == 0 ==> v.selected_task == 0
    &&& v.tasks.len() > 0 ==> v.selected_task < v.tasks.len()
}

/// The panels are in step with the repository: the lists shown are those it
/// holds, in its order.
pub open spec fn in_step(v: AppView) -> bool {
    v.lists == v.listed && lists_exactly(v.listed, v.stored)
}

/// A selection `i` brought into range among `n` items.
pub open spec fn clamped(i: nat, n: nat) -> nat {
    if n == 0 {
        0
    } else if i < n {
        i
    } else {
        (n - 1) as nat
    }
}

/// The next position of a selection among `n` items, wrapping at the end.
pub open spec fn wrap_next(i: nat, n: nat) -> nat {
    if n == 0 {
        i
    } else {
        (i + 1) % n
    }
}

/// The previous position of a selection among `n` items, wrapping at the
/// start.
pub open spec fn wrap_prev(i: nat, n: nat) -> nat {
    if n == 0 {
        i
    } else if i == 0 {
        (n - 1) as nat
    } else {
        (i - 1) as nat
    }
}

/// The status line that describes the current selection.
pub open spec fn selection_text(v: AppView) -> Seq<char> {
    match v.mode {
        Mode::Lists => if v.lists.len() == 0 {
            "No task lists | n: new list | ?: help | q: quit"@
        } else {
            "List "@ + decimal(v.selected_list + 1) + "/"@ + decimal(v.lists.len()) + ": "@
                + v.lists[v.selected_list as int].name
                + " | Enter: tasks | n/r/d: list actions | ?: help | q: quit"@
        },
        Mode::Tasks(_) => if v.tasks.len() == 0 {
            "No tasks | n: new task | Esc: lists | ?: help | q: quit"@
        } else {
            "Task "@ + decimal(v.selected_task + 1) + "/"@ + decimal(v.tasks.len()) + ": "@
                + v.tasks[v.selected_task as int].title
                + " | Space: toggle complete | n/r/d: task actions | Esc: lists | ?: help | q: quit"@
        },
    }
}

/// `v` with other status text.
pub open spec fn with_status(v: AppView, status: Seq<char>) -> AppView {
    AppView { status, ..v }
}

/// `v` with another interaction.
pub open spec fn with_interaction(v: AppView, interaction: Interaction) -> AppView {
    AppView { interaction, ..v }
}

/// `v` with other input text.
pub open spec fn with_input(v: AppView, input: Seq<char>) -> AppView {
    AppView { input, ..v }
}

/// The view after opening the prompt for a new list, or in the task panel
/// for a new task.
pub open spec fn create_started(o: AppView) -> AppView {
    AppView {
        input: Seq::empty(),
        status: Seq::empty(),
        interaction: match o.mode {
            Mode::Lists => Interaction::Editing(EditAction::CreateList),
            Mode::Tasks(i) => Interaction::Editing(EditAction::CreateTask(i)),
        },
        ..o
    }
}

/// The view after asking to rename the selected list or task; with nothing
/// to rename, the status line says so.
pub open spec fn rename_started(o: AppView) -> AppView {
    let target = match o.mode {
        Mode::Lists => if o.lists.len() > 0 {
            Some(EditAction::RenameList(o.selected_list as usize))
        } else {
            None
        },
        Mode::Tasks(i) => if o.tasks.len() > 0 {
            Some(EditAction::RenameTask { list_index: i, task_index: o.selected_task as usize })
        } else {
            None
        },
    };
    match target {
        Some(a) => AppView { input: Seq::empty(), interaction: Interaction::Editing(a), ..o },
        None => AppView {
            input: Seq::empty(),
            interaction: Interaction::Idle,
            status: "Nothing to rename"@,
            ..o
        },
    }
}

/// The view after asking to delete the selected list or task; with nothing
/// to delete, the status line says so.
pub open spec fn delete_started(o: AppView) -> AppView {
    let target = match o.mode {
        Mode::Lists => if o.lists.len() > 0 {
            Some(ConfirmAction::DeleteList(o.selected_list as usize))
        } else {
            None
        },
        Mode::Tasks(i) => if o.tasks.len() > 0 {
            Some(ConfirmAction::DeleteTask { list_index: i, task_index: o.selected_task as usize })
        } else {
            None
        },
    };
    match target {
        Some(a) => AppView { interaction: Interaction::Confirming(a), ..o },
        None => AppView { interaction: Interaction::Idle, status: "Nothing to delete"@, ..o },
    }
}

/// The view after moving the selection in the focused panel one step
/// forward or back, wrapping around; the status line then describes it.
pub open spec fn moved(o: AppView, forward: bool) -> AppView {
    let m = match o.mode {
        Mode::Lists => AppView {
            selected_list: if forward {
                wrap_next(o.selected_list, o.lists.len())
            } else {
                wrap_prev(o.selected_list, o.lists.len())
            },
            ..o
        },
        Mode::Tasks(_) => AppView {
            selected_task: if forward {
                wrap_next(o.selected_task, o.tasks.len())
            } else {
                wrap_prev(o.selected_task, o.tasks.len())
            },
            ..o
        },
    };
    with_status(m, selection_text(m))
}

/// The view after returning the focus to the list panel.
pub open spec fn tasks_closed(o: AppView) -> AppView {
    AppView { mode: Mode::Lists, tasks: Seq::empty(), selected_task: 0, ..o }
}

/// The view after cancelling a prompt or a confirmation.
pub open spec fn cancelled(o: AppView) -> AppView {
    AppView { interaction: Interaction::Idle, status: "Cancelled"@, ..o }
}

/// What a key does when no prompt is open. Only toggling a task and
/// opening the task panel call the repository; every other key succeeds.
pub open spec fn normal_key_effect(o: AppView, f: AppView, key: Key, ok: bool) -> bool {
    match key {
        Key::Char(c) => if c == 'q' {
            f == o && ok
        } else if c == '?' {
            f == with_interaction(o, Interaction::Help) && ok
        } else if c == 'n' {
            f == create_started(o) && ok
        } else if c == 'r' {
            f == rename_started(o) && ok
        } else if c == 'd' {
            f == delete_started(o) && ok
        } else if c == ' ' {
            toggled(o, f, ok)
        } else {
            f == o && ok
        },
        Key::Down => f == moved(o, true) && ok,
        Key::Up => f == moved(o, false) && ok,
        Key::Enter | Key::Right => if o.mode == Mode::Lists {
            opened(o, f, ok)
        } else {
            f == o && ok
        },
        Key::Esc | Key::Left => if o.mode is Tasks {
            f == tasks_closed(o) && ok
        } else {
            f == o && ok
        },
        Key::Tab | Key::BackTab => if o.mode == Mode::Lists {
            opened(o, f, ok)
        } else {
            f == tasks_closed(o) && ok
        },
        _ => f == o && ok,
    }
}

/// What a key does while a text is being edited. Only submitting calls the
/// repository; every other key succeeds.
pub open spec fn edit_key_effect(o: AppView, f: AppView, action: EditAction, key: Key, ok: bool) -> bool {
    match key {
        Key::Enter => edit_submitted(o, f, action, ok),
        Key::Esc => f == AppView { input: Seq::empty(), ..cancelled(o) } && ok,
        Key::Backspace => f == with_input(
            o,
            if o.input.len() == 0 {
                o.input
            } else {
                o.input.drop_last()
            },
        ) && ok,
        Key::Char(c) => f == (if is_control(c) {
            o
        } else {
            with_input(o, o.input.push(c))
        }) && ok,
        _ => f == o && ok,
    }
}

/// What a key does while a deletion waits for confirmation. Only
/// confirming calls the repository; every other key succeeds.
pub open spec fn confirm_key_effect(o: AppView, f: AppView, action: ConfirmAction, key: Key, ok: bool) -> bool {
    match key {
        Key::Char(c) => if c == 'y' || c == 'Y' {
            confirm_submitted(o, f, action, ok)
        } else if c == 'n' || c == 'N' {
            f == cancelled(o) && ok
        } else {
            f == o && ok
        },
        Key::Esc => f == cancelled(o) && ok,
        _ => f == o && ok,
    }
}

/// What a key does, whatever is open.
pub open spec fn key_effect(o: AppView, f: AppView, key: Key, ok: bool) -> bool {
    match o.interaction {
        Interaction::Idle => normal_key_effect(o, f, key, ok),
        Interaction::Help => if key == Key::Esc || key == Key::Char('?') {
            f == with_interaction(o, Interaction::Idle) && ok
        } else {
            f == o && ok
        },
        Interaction::Editing(action) => edit_key_effect(o, f, action, key, ok),
        Interaction::Confirming(action) => confirm_key_effect(o, f, action, key, ok),
    }
}

/// The keys that end the program: `q`, unless a prompt or a confirmation is
/// open, where it is typed or ignored like any other key.
pub open spec fn quits(o: AppView, key: Key) -> bool {
    key == Key::Char('q') && (o.interaction == Interaction::Idle || o.interaction
        == Interaction::Help)
}

/// The terminal application: a repository, an id generator, the interface
/// state and the colour theme.
pub struct App<R, I> {
    repo: R,
    ids: I,
    state: AppState,
    theme: ColourTheme,
}

impl<R: TaskListRepository, I: IdGenerator> App<R, I> {
    /// The interface state and the repository behind it.
    pub closed spec fn view(&self) -> AppView {
        AppView {
            lists: list_views(self.state.lists@),
            tasks: task_views(self.state.tasks@),
            selected_list: self.state.selected_list as nat,
            selected_task: self.state.selected_task as nat,
            mode: self.state.mode,
            interaction: self.state.interaction,
            input: self.state.input@,
            status: self.state.status@,
            stored: self.repo.stored(),
            listed: self.repo.listed(),
            infallible: self.repo.infallible(),
            theme: self.theme,
        }
    }

    /// The interface's invariant holds.
    pub open spec fn wf(&self) -> bool {
        app_wf(self.view())
    }

    pub fn new(repo: R, ids: I, theme: ColourTheme) -> (r: Self)
        ensures
            r.view() == (AppView {
                lists: Seq::empty(),
                tasks: Seq::empty(),
                selected_list: 0,
                selected_task: 0,
                mode: Mode::Lists,
                interaction: Interaction::Idle,
                input: Seq::empty(),
                status: Seq::empty(),
                stored: repo.stored(),
                listed: repo.listed(),
                infallible: repo.infallible(),
                theme,
            }),
            r.wf(),
    {
        let r = App {
            repo,
            ids,
            state: AppState {
                lists: Vec::new(),
                tasks: Vec::new(),
                selected_list: 0,
                selected_task: 0,
                mode: Mode::Lists,
                interaction: Interaction::Idle,
                input: String::new(),
                status: String::new(),
            },
            theme,
        };
        assert(list_views(r.state.lists@) =~= Seq::<TaskListView>::empty());
        assert(task_views(r.state.tasks@) =~= Seq::<TaskView>::empty());
        r
    }

    pub fn repo(&self) -> (r: &R)
        ensures
            r.stored() == self.view().stored,
            r.listed() == self.view().listed,
            r.infallible() == self.view().infallible,
    {
        &self.repo
    }

    pub fn theme(&self) -> (r: ColourTheme)
        ensures
            r == self.view().theme,
    {
        self.theme
    }

    pub fn mode(&self) -> (r: Mode)
        ensures
            r == self.view().mode,
    {
        self.state.mode
    }

    pub fn interaction(&self) -> (r: Interaction)
        ensures
            r == self.view().interaction,
    {
        self.state.interaction
    }

    pub fn selected_list(&self) -> (r: usize)
        ensures
            r == self.view().selected_list,
    {
        self.state.selected_list
    }

    pub fn selected_task(&self) -> (r: usize)
        ensures
            r == self.view().selected_task,
    {
        self.state.selected_task
    }

    pub fn input(&self) -> (r: &str)
        ensures
            r@ == self.view().input,
    {
        self.state.input.as_str()
    }

    pub fn status(&self) -> (r: &str)
        ensures
            r@ == self.view().status,
    {
        self.state.status.as_str()
    }

    /// The lists as last loaded, in the repository's order.
    pub fn lists(&self) -> (r: &[TaskList])
        ensures
            list_views(r@) == self.view().lists,
    {
        self.state.lists.as_slice()
    }

    /// The tasks of the open list, as last loaded.
    pub fn tasks(&self) -> (r: &[Task])
        ensures
            task_views(r@) == self.view().tasks,
    {
        self.state.tasks.as_slice()
    }

    /// Bring the selections back into range after the lists or tasks
    /// changed; with no lists left, the list panel takes the focus.
    fn clamp_selection(&mut self)
        ensures
            app_wf(final(self).view()),
            final(self).view().stored == old(self).view().stored,
            final(self).view().listed == old(self).view().listed,
            final(self).view().infallible == old(self).view().infallible,
            final(self).view().lists == old(self).view().lists,
            final(self).view().interaction == old(self).view().interaction,
            final(self).view().input == old(self).view().input,
            final(self).view().status == old(self).view().status,
            final(self).view().theme == old(self).view().theme,
            old(self).view().lists.len() == 0 ==> final(self).view().tasks.len() == 0,
            old(self).view().lists.len() > 0 ==> final(self).view().tasks == old(self).view().tasks,
            old(self).view().lists.len() > 0 ==> final(self).view().selected_task == clamped(
                old(self).view().selected_task,
                old(self).view().tasks.len(),
            ),
            old(self).view().lists.len() > 0 ==> final(self).view().selected_list == if old(
                self,
            ).view().selected_list < old(self).view().lists.len() {
                old(self).view().selected_list
            } else {
                (old(self).view().lists.len() - 1) as nat
            },
            old(self).view().lists.len() > 0 ==> final(self).view().mode == match old(
                self,
            ).view().mode {
                Mode::Tasks(i) => if i < old(self).view().lists.len() {
                    Mode::Tasks(i)
                } else {
                    Mode::Tasks(final(self).view().selected_list as usize)
                },
                Mode::Lists => Mode::Lists,
            },
    {
        if self.state.lists.len() == 0 {
            self.state.selected_list = 0;
            self.state.selected_task = 0;
            self.state.tasks = Vec::new();
            self.state.mode = Mode::Lists;
            assert(task_views(self.state.tasks@) =~= Seq::<TaskView>::empty());
        } else {
            if self.state.selected_list > self.state.lists.len() - 1 {
                self.state.selected_list = self.state.lists.len() - 1;
            }
            match self.state.mode {
                Mode::Tasks(index) => {
                    if index >= self.state.lists.len() {
                        self.state.mode = Mode::Tasks(self.state.selected_list);
                    }
                },
                Mode::Lists => {},
            }
        }
        self.clamp_task_selection();
    }

    /// Bring the task selection back into range.
    fn clamp_task_selection(&mut self)
        ensures
            final(self).view() == (AppView {
                selected_task: if old(self).view().tasks.len() == 0 {
                    0
                } else if old(self).view().selected_task < old(self).view().tasks.len() {
                    old(self).view().selected_task
                } else {
                    (old(self).view().tasks.len() - 1) as nat
                },
                ..old(self).view()
            }),
    {
        if self.state.tasks.len() == 0 {
            self.state.selected_task = 0;
        } else if self.state.selected_task > self.state.tasks.len() - 1 {
            self.state.selected_task = self.state.tasks.len() - 1;
        }
    }

    /// Return the focus to the list panel.
    fn close_tasks(&mut self)
        ensures
            final(self).view() == tasks_closed(old(self).view()),
    {
        self.state.mode = Mode::Lists;
        self.state.tasks = Vec::new();
        self.state.selected_task = 0;
        assert(task_views(self.state.tasks@) =~= Seq::<TaskView>::empty());
    }

    /// The id of the list at `index`, if there is one.
    fn list_id_at(&self, index: usize) -> (r: Option<TaskListId>)
        ensures
            match r {
                Some(id) => index < self.view().lists.len() && id@ == self.view().lists[index as int].id,
                None => index >= self.view().lists.len(),
            },
    {
        if index < self.state.lists.len() {
            Some(self.state.lists[index].id().clone())
        } else {
            None
        }
    }

    /// The title of the task at `index`, if there is one.
    fn task_title_at(&self, index: usize) -> (r: Option<String>)
        ensures
            match r {
                Some(t) => index < self.view().tasks.len() && t@ == self.view().tasks[index as int].title,
                None => index >= self.view().tasks.len(),
            },
    {
        if index < self.state.tasks.len() {
            Some(self.state.tasks[index].title().to_owned())
        } else {
            None
        }
    }

    /// Select the list stored under `id`, if it is loaded.
    fn select_list_id(&mut self, id: &TaskListId)
        ensures
            final(self).view() == (AppView {
                selected_list: final(self).view().selected_list,
                ..old(self).view()
            }),
            (exists|i: int|
                0 <= i < old(self).view().lists.len() && #[trigger] old(self).view().lists[i].id
                    == id@) ==> final(self).view().selected_list < old(self).view().lists.len()
                && old(self).view().lists[final(self).view().selected_list as int].id == id@,
            !(exists|i: int|
                0 <= i < old(self).view().lists.len() && #[trigger] old(self).view().lists[i].id
                    == id@) ==> final(self).view() == old(self).view(),
    {
        let mut i: usize = 0;
        while i < self.state.lists.len()
            invariant
                i <= self.state.lists@.len(),
                forall|j: int| 0 <= j < i ==> #[trigger] list_views(self.state.lists@)[j].id != id@,
                self.view() == old(self).view(),
            decreases self.state.lists.len() - i,
        {
            if self.state.lists[i].id().0 == id.0 {
                assert(old(self).view().lists[i as int].id == id@);
                self.state.selected_list = i;
                return;
            }
            i = i + 1;
        }
    }

    /// The status line that describes the current selection.
    pub fn selection_status(&self) -> (r: String)
        requires
            self.wf(),
        ensures
            r@ == selection_text(self.view()),
    {
        let mut s = String::new();
        match self.state.mode {
            Mode::Lists => {
                if self.state.lists.len() == 0 {
                    s.append("No task lists | n: new list | ?: help | q: quit");
                } else {
                    let list = &self.state.lists[self.state.selected_list];
                    s.append("List ");
                    push_decimal(&mut s, (self.state.selected_list + 1) as u64);
                    s.append("/");
                    push_decimal(&mut s, self.state.lists.len() as u64);
                    s.append(": ");
                    s.append(list.name());
                    s.append(" | Enter: tasks | n/r/d: list actions | ?: help | q: quit");
                }
            },
            Mode::Tasks(_) => {
                if self.state.tasks.len() == 0 {
                    s.append("No tasks | n: new task | Esc: lists | ?: help | q: quit");
                } else {
                    let task = &self.state.tasks[self.state.selected_task];
                    s.append("Task ");
                    push_decimal(&mut s, (self.state.selected_task + 1) as u64);
                    s.append("/");
                    push_decimal(&mut s, self.state.tasks.len() as u64);
                    s.append(": ");
                    s.append(task.title());
                    s.append(
                        " | Space: toggle complete | n/r/d: task actions | Esc: lists | ?: help | q: quit",
                    );
                }
            },
        }
        s
    }

    /// Select the next list or task, wrapping at the end; the status line
    /// then describes the selection. Nothing happens while a prompt is open.
    fn select_next(&mut self)
        requires
            old(self).wf(),
        ensures
            final(self).wf(),
            old(self).view().interaction != Interaction::Idle ==> final(self).view() == old(self).view(),
            old(self).view().interaction == Interaction::Idle ==> final(self).view() == moved(old(self).view(), true),
    {
        if self.state.interaction != Interaction::Idle {
            return;
        }
        match self.state.mode {
            Mode::Lists => {
                if self.state.lists.len() > 0 {
                    self.state.selected_list = (self.state.selected_list + 1) % self.state.lists.len();
                }
            },
            Mode::Tasks(_) => {
                if self.state.tasks.len() > 0 {
                    self.state.selected_task = (self.state.selected_task + 1) % self.state.tasks.len();
                }
            },
        }
        self.state.status = self.selection_status();
    }

    /// Select the previous list or task, wrapping at the start; the status
    /// line then describes the selection. Nothing happens while a prompt is
    /// open.
    fn select_previous(&mut self)
        requires
            old(self).wf(),
        ensures
            final(self).wf(),
            old(self).view().interaction != Interaction::Idle ==> final(self).view() == old(self).view(),
            old(self).view().interaction == Interaction::Idle ==> final(self).view() == moved(old(self).view(), false),
    {
        if self.state.interaction != Interaction::Idle {
            return;
        }
        match self.state.mode {
            Mode::Lists => {
                if self.state.lists.len() > 0 {
                    self.state.selected_list = if self.state.selected_list == 0 {
                        self.state.lists.len() - 1
                    } else {
                        self.state.selected_list - 1
                    };
                }
            },
            Mode::Tasks(_) => {
                if self.state.tasks.len() > 0 {
                    self.state.selected_task = if self.state.selected_task == 0 {
                        self.state.tasks.len() - 1
                    } else {
                        self.state.selected_task - 1
                    };
                }
            },
        }
        self.state.status = self.selection_status();
    }

    /// Open a prompt for a new list or, in the task panel, a new task.
    fn start_create(&mut self)
        ensures
            final(self).view() == create_started(old(self).view()),
    {
        self.state.input = String::new();
        self.state.interaction = match self.state.mode {
            Mode::Lists => Interaction::Editing(EditAction::CreateList),
            Mode::Tasks(list_index) => Interaction::Editing(EditAction::CreateTask(list_index)),
        };
        self.state.status = String::new();
    }

    /// Open a prompt to rename the selected list or task, if there is one.
    fn start_rename(&mut self)
        ensures
            final(self).view() == rename_started(old(self).view()),
    {
        self.state.input = String::new();
        let next = match self.state.mode {
            Mode::Lists => {
                if self.state.lists.len() > 0 {
                    Some(EditAction::RenameList(self.state.selected_list))
                } else {
                    None
                }
            },
            Mode::Tasks(list_index) => {
                if self.state.tasks.len() > 0 {
                    Some(EditAction::RenameTask { list_index, task_index: self.state.selected_task })
                } else {
                    None
                }
            },
        };
        match next {
            Some(a) => {
                self.state.interaction = Interaction::Editing(a);
            },
            None => {
                self.state.status = "Nothing to rename".to_owned();
                self.state.interaction = Interaction::Idle;
            },
        }
    }

    /// Ask to confirm deleting the selected list or task, if there is one.
    fn start_delete(&mut self)
        ensures
            final(self).view() == delete_started(old(self).view()),
    {
        let next = match self.state.mode {
            Mode::Lists => {
                if self.state.lists.len() > 0 {
                    Some(ConfirmAction::DeleteList(self.state.selected_list))
                } else {
                    None
                }
            },
            Mode::Tasks(list_index) => {
                if self.state.tasks.len() > 0 {
                    Some(ConfirmAction::DeleteTask { list_index, task_index: self.state.selected_task })
                } else {
                    None
                }
            },
        };
        match next {
            Some(a) => {
                self.state.interaction = Interaction::Confirming(a);
            },
            None => {
                self.state.status = "Nothing to delete".to_owned();
                self.state.interaction = Interaction::Idle;
            },
        }
    }
}

/// The status text of a refused or failed list creation.
pub open spec fn create_error_text(e: CreateError) -> Seq<char> {
    match e {
        CreateError::EmptyName => "List name is required"@,
        CreateError::DuplicateName => "List name already exists"@,
        CreateError::Repo(m) => "Storage error: "@ + m@,
    }
}

/// The status text of a refused or failed list rename.
pub open spec fn rename_error_text(e: RenameError) -> Seq<char> {
    match e {
        RenameError::NotFound => "List not found"@,
        RenameError::EmptyName => "List name is required"@,
        RenameError::DuplicateName => "List name already exists"@,
        RenameError::Repo(m) => "Storage error: "@ + m@,
    }
}

/// The status text of a refused or failed list deletion.
pub open spec fn delete_error_text(e: DeleteError) -> Seq<char> {
    match e {
        DeleteError::NotFound => "List not found"@,
        DeleteError::Repo(m) => "Storage error: "@ + m@,
    }
}

/// The status text of a refused or failed task command.
pub open spec fn task_error_text(e: TaskCommandError) -> Seq<char> {
    match e {
        TaskCommandError::ListNotFound => "List not found"@,
        TaskCommandError::EmptyTitle => "Task title is required"@,
        TaskCommandError::DuplicateTitle => "Task title already exists"@,
        TaskCommandError::TaskNotFound => "Task not found"@,
        TaskCommandError::Repo(m) => "Storage error: "@ + m@,
    }
}

fn storage_error(m: String) -> (r: String)
    ensures
        r@ == "Storage error: "@ + m@,
{
    "Storage error: ".to_owned().concat(m.as_str())
}

/// The status text for a list creation error.
pub fn create_error_message(error: CreateError) -> (r: String)
    ensures
        r@ == create_error_text(error),
{
    match error {
        CreateError::EmptyName => "List name is required".to_owned(),
        CreateError::DuplicateName => "List name already exists".to_owned(),
        CreateError::Repo(message) => storage_error(message),
    }
}

/// The status text for a list rename error.
pub fn rename_error_message(error: RenameError) -> (r: String)
    ensures
        r@ == rename_error_text(error),
{
    match error {
        RenameError::NotFound => "List not found".to_owned(),
        RenameError::EmptyName => "List name is required".to_owned(),
        RenameError::DuplicateName => "List name already exists".to_owned(),
        RenameError::Repo(message) => storage_error(message),
    }
}

/// The status text for a list deletion error.
pub fn delete_error_message(error: DeleteError) -> (r: String)
    ensures
        r@ == delete_error_text(error),
{
    match error {
        DeleteError::NotFound => "List not found".to_owned(),
        DeleteError::Repo(message) => storage_error(message),
    }
}

/// The status text for a task command error.
pub fn task_error_message(error: TaskCommandError) -> (r: String)
    ensures
        r@ == task_error_text(error),
{
    match error {
        TaskCommandError::ListNotFound => "List not found".to_owned(),
        TaskCommandError::EmptyTitle => "Task title is required".to_owned(),
        TaskCommandError::DuplicateTitle => "Task title already exists".to_owned(),
        TaskCommandError::TaskNotFound => "Task not found".to_owned(),
        TaskCommandError::Repo(message) => storage_error(message),
    }
}

/// Where the focus and the selections stand after the lists were reloaded
/// from `o`: with no lists, on the empty list panel; otherwise the list
/// selection is brought into range, an open task panel stays on its list
/// if that position still holds one (else it moves to the selected list)
/// and shows that list's tasks, and the task selection is brought into
/// range.
pub open spec fn selections_reloaded(o: AppView, f: AppView) -> bool {
    if f.lists.len() == 0 {
        &&& f.selected_list == 0
        &&& f.selected_task == 0
        &&& f.tasks.len() == 0
        &&& f.mode == Mode::Lists
    } else {
        &&& f.selected_list == clamped(o.selected_list, f.lists.len())
        &&& match o.mode {
            Mode::Lists => f.mode == Mode::Lists && f.tasks == o.tasks,
            Mode::Tasks(i) => {
                let j = if i < f.lists.len() {
                    i as nat
                } else {
                    f.selected_list
                };
                f.mode == Mode::Tasks(j as usize) && f.tasks == f.lists[j as int].tasks
            },
        }
        &&& f.selected_task == clamped(o.selected_task, f.tasks.len())
    }
}

/// After a reload: the lists are those stored, the selections are back in
/// range, and an open task panel shows the tasks stored for its list.
pub open spec fn reloaded(o: AppView, f: AppView) -> bool {
    &&& lists_exactly(f.lists, o.stored)
    &&& f.lists == o.listed
    &&& f.stored == o.stored
    &&& f.listed == o.listed
    &&& f.infallible == o.infallible
    &&& f.interaction == o.interaction
    &&& f.input == o.input
    &&& f.status == o.status
    &&& f.theme == o.theme
    &&& (f.mode matches Mode::Tasks(i) ==> f.tasks == f.lists[i as int].tasks)
}

impl<R: TaskListRepository, I: IdGenerator> App<R, I> {
    /// Load the lists from the repository once, as the program does on
    /// start-up: the panels then show what it holds, in its order.
    pub fn load_once(&mut self) -> (r: Result<(), String>)
        requires
            old(self).wf(),
        ensures
            final(self).wf(),
            old(self).view().infallible ==> r is Ok,
            r is Ok ==> reloaded(old(self).view(), final(self).view()),
            r is Ok ==> in_step(final(self).view()),
            r is Ok ==> selections_reloaded(old(self).view(), final(self).view()),
            final(self).view().stored == old(self).view().stored,
    {
        self.refresh()
    }

    /// Reload the lists and, with the task panel open, its tasks.
    fn refresh(&mut self) -> (r: Result<(), String>)
        requires
            old(self).wf(),
        ensures
            final(self).wf(),
            old(self).view().infallible ==> r is Ok,
            r is Ok ==> reloaded(old(self).view(), final(self).view()),
            r is Ok ==> selections_reloaded(old(self).view(), final(self).view()),
            final(self).view().stored == old(self).view().stored,
            final(self).view().listed == old(self).view().listed,
            final(self).view().infallible == old(self).view().infallible,
            final(self).view().interaction == old(self).view().interaction,
            final(self).view().input == old(self).view().input,
            final(self).view().status == old(self).view().status,
            final(self).view().theme == old(self).view().theme,
            old(self).view().mode is Lists ==> final(self).view().mode is Lists,
            old(self).view().mode is Lists ==> (final(self).view().tasks == old(self).view().tasks
                || final(self).view().tasks.len() == 0),
            r is Ok && final(self).view().lists.len() > 0 ==> final(self).view().selected_list
                == clamped(old(self).view().selected_list, final(self).view().lists.len()),
            r is Ok ==> match old(self).view().mode {
                Mode::Tasks(i) => i < final(self).view().lists.len() ==> (final(self).view().mode
                    == Mode::Tasks(i) && final(self).view().tasks == final(self).view().lists[i as int].tasks),
                Mode::Lists => true,
            },
            r is Ok && old(self).view().mode is Tasks && final(self).view().mode is Tasks
                ==> final(self).view().selected_task == clamped(
                old(self).view().selected_task,
                final(self).view().tasks.len(),
            ),
            old(self).view().mode is Tasks && final(self).view().lists.len() > 0
                ==> final(self).view().mode is Tasks,
    {
        let lists = match ListTaskLists::new(&self.repo).execute() {
            Ok(v) => v,
            Err(e) => return Err(e.0),
        };
        self.state.lists = lists;
        self.clamp_selection();
        match self.state.mode {
            Mode::Tasks(_) => self.reload_tasks(),
            Mode::Lists => Ok(()),
        }
    }

    /// Reload the tasks of the open list; if that list is gone, return the
    /// focus to the list panel.
    fn reload_tasks(&mut self) -> (r: Result<(), String>)
        requires
            old(self).wf(),
            lists_exactly(old(self).view().lists, old(self).view().stored),
        ensures
            final(self).wf(),
            old(self).view().infallible ==> r is Ok,
            final(self).view() == (AppView {
                tasks: final(self).view().tasks,
                selected_task: final(self).view().selected_task,
                ..old(self).view()
            }),
            r is Ok ==> (old(self).view().mode matches Mode::Tasks(i) ==> final(self).view().tasks
                == old(self).view().lists[i as int].tasks),
            match old(self).view().mode {
                Mode::Tasks(i) => i < old(self).view().lists.len() ==> (final(self).view().mode
                    == old(self).view().mode && (r is Ok ==> final(self).view().selected_task
                    == clamped(old(self).view().selected_task, final(self).view().tasks.len()))),
                Mode::Lists => true,
            },
    {
        let list_index = match self.state.mode {
            Mode::Tasks(i) => i,
            Mode::Lists => return Ok(()),
        };
        let id = match self.list_id_at(list_index) {
            Some(id) => id,
            None => {
                self.close_tasks();
                return Ok(());
            },
        };
        let tasks = match ListTasks::new(&self.repo).execute(&id) {
            Ok(t) => t,
            Err(e) => return Err(task_error_message(e)),
        };
        self.state.tasks = tasks;
        self.clamp_task_selection();
        Ok(())
    }
}

/// The lists, tasks, focus and selections are as they were.
pub open spec fn same_panels(o: AppView, f: AppView) -> bool {
    &&& f.lists == o.lists
    &&& f.tasks == o.tasks
    &&& f.mode == o.mode
    &&& f.selected_list == o.selected_list
    &&& f.selected_task == o.selected_task
}

/// Opening the task panel on the selected list: nothing happens without
/// lists; otherwise the focus moves to the tasks of the selected list, whose
/// first task is selected.
pub open spec fn opened(o: AppView, f: AppView, ok: bool) -> bool {
    if o.lists.len() == 0 {
        f == o && ok
    } else {
        let id = o.lists[o.selected_list as int].id;
        &&& f == AppView {
            mode: Mode::Tasks(o.selected_list as usize),
            selected_task: 0,
            tasks: f.tasks,
            ..o
        }
        &&& ok ==> o.stored.contains_key(id) && f.tasks == o.stored[id].tasks
        &&& !ok ==> f.tasks == o.tasks
        &&& o.infallible && o.stored.contains_key(id) ==> ok
    }
}

/// Flipping whether the task `t` of `l` is done.
pub open spec fn toggle_outcome(l: TaskListView, t: TaskView) -> Result<TaskListView, crate::domain::task::TaskError> {
    spec_set_completed(l, t.title, !t.completed)
}

/// After a change to the list at `i`, stored under `id`, went through and
/// the panels were reloaded: the lists are those stored, in the
/// repository's order, and the task panel stays on position `i` with its
/// tasks. When the panels were in step with the repository before, that
/// position still holds the changed list.
pub open spec fn task_panel_shown(o: AppView, f: AppView, i: usize, id: Seq<char>) -> bool {
    &&& lists_exactly(f.lists, f.stored)
    &&& f.lists == f.listed
    &&& i < f.lists.len() ==> {
        &&& f.mode == Mode::Tasks(i)
        &&& f.selected_list == i
        &&& f.tasks == f.lists[i as int].tasks
    }
    &&& in_step(o) ==> {
        &&& i < f.lists.len()
        &&& f.lists[i as int].id == id
        &&& f.tasks == f.stored[id].tasks
    }
}

/// A task command on the list at `i`, whose domain outcome is `outcome`,
/// answered by its use case with `r`: the repository changes as the use
/// case says; a refused command leaves the panels as they were and the
/// status line names the error; an accepted one shows the list's tasks.
pub open spec fn task_command_shown(
    o: AppView,
    f: AppView,
    i: usize,
    outcome: Result<TaskListView, crate::domain::task::TaskError>,
    r: Result<(), TaskCommandError>,
    ok: bool,
) -> bool {
    let id = o.lists[i as int].id;
    &&& list_command_done(o.stored, f.stored, id, outcome, o.infallible, r)
    &&& list_order_done(o.listed, f.listed, outcome, r)
    &&& r matches Err(e) ==> ok && same_panels(o, f) && f.status == task_error_text(e)
    &&& r is Ok && ok ==> task_panel_shown(o, f, i, id)
}

/// What every command of the interface keeps: the prompt, the typed text,
/// the theme and the repository's kind stay; with a repository that cannot
/// fail the command succeeds, and panels in step with it stay in step.
pub open spec fn command_frame(o: AppView, f: AppView, ok: bool) -> bool {
    &&& f.interaction == o.interaction
    &&& f.input == o.input
    &&& f.infallible == o.infallible
    &&& f.theme == o.theme
    &&& o.infallible ==> ok
    &&& o.infallible && in_step(o) ==> in_step(f)
}

/// Toggling the selected task: in the task panel, the selected task of the
/// open list is marked done if it was not, and not done if it was, through
/// the repository; the status line tells what happened. Without a task to
/// toggle nothing is stored and the call succeeds.
pub open spec fn toggled(o: AppView, f: AppView, ok: bool) -> bool {
    &&& command_frame(o, f, ok)
    &&& match o.mode {
        Mode::Lists => f == o && ok,
        Mode::Tasks(i) => if i >= o.lists.len() {
            f == with_status(o, "List not found"@) && ok
        } else if o.selected_task >= o.tasks.len() {
            f == with_status(o, "Task not found"@) && ok
        } else {
            let id = o.lists[i as int].id;
            let t = o.tasks[o.selected_task as int];
            exists|r: Result<(), TaskCommandError>|
                {
                    &&& #[trigger] task_command_shown(o, f, i, toggle_outcome(o.stored[id], t), r, ok)
                    &&& r is Ok && ok ==> {
                        &&& f.selected_task == clamped(o.selected_task, f.tasks.len())
                        &&& f.status == (if t.completed {
                            "Marked incomplete"@
                        } else {
                            "Completed task"@
                        })
                    }
                }
        },
    }
}

/// Handing `value` to the use case that `action` names, with the prompt
/// already closed: the status line tells what happened. Without a list or
/// task to act on, nothing is stored and the call succeeds; a refused value
/// is reported on the status line and the call succeeds too.
pub open spec fn edit_done(o: AppView, f: AppView, action: EditAction, value: Seq<char>, ok: bool) -> bool {
    &&& command_frame(o, f, ok)
    &&& match action {
        EditAction::CreateList => exists|r: Result<TaskListId, CreateError>|
            {
                &&& #[trigger] create_outcome(o.stored, f.stored, value, o.infallible, r)
                &&& r matches Ok(id) ==> f.listed == saved_order(o.listed, fresh_list(id@, value))
                &&& r is Err && !(r matches Err(CreateError::Repo(_))) ==> f.listed == o.listed
                &&& r matches Err(e) ==> ok && same_panels(o, f) && f.status == create_error_text(e)
                &&& r is Ok && ok ==> {
                    &&& lists_exactly(f.lists, f.stored)
                    &&& f.lists == f.listed
                    &&& f.mode == Mode::Lists
                    &&& f.lists[f.selected_list as int].id == r->Ok_0@
                    &&& o.mode is Lists ==> f.tasks == o.tasks && f.selected_task == o.selected_task
                    &&& f.status == "Created list "@ + value
                }
            },
        EditAction::RenameList(i) => if i >= o.lists.len() {
            ok && same_panels(o, f) && f.stored == o.stored && f.listed == o.listed && f.status
                == "List not found"@
        } else {
            let id = o.lists[i as int].id;
            exists|r: Result<(), RenameError>|
                {
                    &&& #[trigger] rename_outcome(o.stored, f.stored, id, value, o.infallible, r)
                    &&& r is Ok ==> f.listed == saved_order(o.listed, renamed(o.stored[id], value))
                    &&& r is Err && !(r matches Err(RenameError::Repo(_))) ==> f.listed == o.listed
                    &&& r matches Err(e) ==> ok && same_panels(o, f) && f.status == rename_error_text(e)
                    &&& r is Ok && ok ==> {
                        &&& lists_exactly(f.lists, f.stored)
                        &&& f.lists == f.listed
                        &&& f.selected_list == clamped(i as nat, f.lists.len())
                        &&& o.mode is Lists ==> f.mode is Lists
                        &&& o.mode is Lists ==> f.tasks == o.tasks && f.selected_task == o.selected_task
                        &&& f.status == "Renamed list to "@ + value
                    }
                }
        },
        EditAction::CreateTask(i) => if i >= o.lists.len() {
            ok && same_panels(o, f) && f.stored == o.stored && f.listed == o.listed && f.status
                == "List not found"@
        } else {
            let id = o.lists[i as int].id;
            exists|r: Result<(), TaskCommandError>|
                {
                    &&& #[trigger] task_command_shown(o, f, i, spec_add_task(o.stored[id], value), r, ok)
                    &&& r is Ok && ok ==> {
                        &&& f.selected_task == (if f.tasks.len() == 0 {
                            0
                        } else {
                            (f.tasks.len() - 1) as nat
                        })
                        &&& f.status == "Created task "@ + value
                    }
                }
        },
        EditAction::RenameTask { list_index: i, task_index: j } => if i >= o.lists.len() {
            ok && same_panels(o, f) && f.stored == o.stored && f.listed == o.listed && f.status
                == "List not found"@
        } else if j >= o.tasks.len() {
            ok && same_panels(o, f) && f.stored == o.stored && f.listed == o.listed && f.status
                == "Task not found"@
        } else {
            let id = o.lists[i as int].id;
            exists|r: Result<(), TaskCommandError>|
                {
                    &&& #[trigger] task_command_shown(
                        o,
                        f,
                        i,
                        spec_rename_task(o.stored[id], o.tasks[j as int].title, value),
                        r,
                        ok,
                    )
                    &&& r is Ok && ok ==> {
                        &&& f.selected_task == clamped(j as nat, f.tasks.len())
                        &&& f.status == "Renamed task to "@ + value
                    }
                }
        },
    }
}

/// Submitting the text being edited: the prompt closes, and the text,
/// trimmed, is handed to the use case that the prompt was opened for.
pub open spec fn edit_submitted(o: AppView, f: AppView, action: EditAction, ok: bool) -> bool {
    &&& f.interaction == Interaction::Idle
    &&& f.input == Seq::<char>::empty()
    &&& edit_done(
        AppView { interaction: Interaction::Idle, input: Seq::empty(), ..o },
        f,
        action,
        trimmed(o.input),
        ok,
    )
}

/// Carrying out a confirmed deletion, with the confirmation already closed:
/// the list or task is deleted through the repository and the status line
/// tells what happened. Without a list or task to delete, nothing is stored
/// and the call succeeds.
pub open spec fn confirm_done(o: AppView, f: AppView, action: ConfirmAction, ok: bool) -> bool {
    &&& command_frame(o, f, ok)
    &&& match action {
        ConfirmAction::DeleteList(i) => if i >= o.lists.len() {
            ok && same_panels(o, f) && f.stored == o.stored && f.listed == o.listed && f.status
                == "List not found"@
        } else {
            let id = o.lists[i as int].id;
            exists|r: Result<(), DeleteError>|
                {
                    &&& #[trigger] delete_outcome(o.stored, f.stored, id, o.infallible, r)
                    &&& r is Ok ==> f.listed == deleted_order(o.listed, id)
                    &&& r == Err::<(), DeleteError>(DeleteError::NotFound) ==> f.listed == o.listed
                    &&& r matches Err(e) ==> ok && same_panels(o, f) && f.status == delete_error_text(e)
                    &&& r is Ok && ok ==> {
                        &&& lists_exactly(f.lists, f.stored)
                        &&& f.lists == f.listed
                        &&& f.mode == Mode::Lists
                        &&& f.tasks.len() == 0
                        &&& f.selected_task == 0
                        &&& f.selected_list == clamped(i as nat, f.lists.len())
                        &&& f.status == "Deleted list"@
                    }
                }
        },
        ConfirmAction::DeleteTask { list_index: i, task_index: j } => if i >= o.lists.len() {
            ok && same_panels(o, f) && f.stored == o.stored && f.listed == o.listed && f.status
                == "List not found"@
        } else if j >= o.tasks.len() {
            ok && same_panels(o, f) && f.stored == o.stored && f.listed == o.listed && f.status
                == "Task not found"@
        } else {
            let id = o.lists[i as int].id;
            exists|r: Result<(), TaskCommandError>|
                {
                    &&& #[trigger] task_command_shown(
                        o,
                        f,
                        i,
                        spec_remove_task(o.stored[id], o.tasks[j as int].title),
                        r,
                        ok,
                    )
                    &&& r is Ok && ok ==> {
                        &&& f.selected_task == clamped(j as nat, f.tasks.len())
                        &&& f.status == "Deleted task"@
                    }
                }
        },
    }
}

/// Confirming a deletion: the confirmation closes and the deletion it was
/// opened for is carried out.
pub open spec fn confirm_submitted(o: AppView, f: AppView, action: ConfirmAction, ok: bool) -> bool {
    &&& f.interaction == Interaction::Idle
    &&& f.input == o.input
    &&& confirm_done(with_interaction(o, Interaction::Idle), f, action, ok)
}

/// A rename that went through before reloading the panels failed.
proof fn lemma_rename_unfinished(o: AppView, f: AppView, i: usize, value: Seq<char>, r: Result<(), RenameError>)
    requires
        i < o.lists.len(),
        r is Ok,
        rename_outcome(o.stored, f.stored, o.lists[i as int].id, value, o.infallible, r),
        f.listed == saved_order(o.listed, renamed(o.stored[o.lists[i as int].id], value)),
        command_frame(o, f, false),
    ensures
        edit_done(o, f, EditAction::RenameList(i), value, false),
{
}

/// A change saved in place of the list at `i`, of panels in step with the
/// repository, keeps that list at `i` once the lists are reloaded.
proof fn lemma_changed_in_place(o: AppView, f: AppView, i: usize, l: TaskListView)
    requires
        in_step(o),
        i < o.lists.len(),
        l.id == o.lists[i as int].id,
        f.listed == saved_order(o.listed, l),
        f.lists == f.listed,
        f.stored == o.stored.insert(l.id, l),
    ensures
        i < f.lists.len(),
        f.lists[i as int] == l,
        f.stored[l.id] == l,
{
    lemma_saved_in_place(o.listed, o.stored, i as int, l);
}

impl<R: TaskListRepository, I: IdGenerator> App<R, I> {
    /// Open the task panel on the selected list.
    fn open_tasks(&mut self) -> (r: Result<(), String>)
        requires
            old(self).wf(),
        ensures
            final(self).wf(),
            opened(old(self).view(), final(self).view(), r is Ok),
    {
        let list_index = self.state.selected_list;
        let id = match self.list_id_at(list_index) {
            Some(id) => id,
            None => return Ok(()),
        };
        self.state.selected_task = 0;
        self.state.mode = Mode::Tasks(list_index);
        let tasks = match ListTasks::new(&self.repo).execute(&id) {
            Ok(t) => t,
            Err(e) => return Err(task_error_message(e)),
        };
        self.state.tasks = tasks;
        self.clamp_task_selection();
        Ok(())
    }

    /// Mark the selected task done, or not done if it was.
    fn toggle_selected_task(&mut self) -> (r: Result<(), String>)
        requires
            old(self).wf(),
        ensures
            final(self).wf(),
            toggled(old(self).view(), final(self).view(), r is Ok),
    {
        let ghost o = self.view();
        let list_index = match self.state.mode {
            Mode::Tasks(i) => i,
            Mode::Lists => return Ok(()),
        };
        let id = match self.list_id_at(list_index) {
            Some(id) => id,
            None => {
                self.state.status = "List not found".to_owned();
                return Ok(());
            },
        };
        if self.state.selected_task >= self.state.tasks.len() {
            self.state.status = "Task not found".to_owned();
            return Ok(());
        }
        let title = self.state.tasks[self.state.selected_task].title().to_owned();
        let is_done = self.state.tasks[self.state.selected_task].is_completed();
        let ghost outcome = toggle_outcome(o.stored[id@], o.tasks[o.selected_task as int]);
        let result = if is_done {
            UncompleteTask::new(&mut self.repo).execute(&id, title.as_str())
        } else {
            CompleteTask::new(&mut self.repo).execute(&id, title.as_str())
        };
        let ghost gr = result;
        match result {
            Ok(()) => {
                self.state.selected_list = list_index;
                self.state.mode = Mode::Tasks(list_index);
                match self.refresh() {
                    Ok(()) => {},
                    Err(m) => {
                        assert(task_command_shown(o, self.view(), list_index, outcome, gr, false));
                        assert(!o.infallible);
                        return Err(m);
                    },
                }
                if is_done {
                    self.state.status = "Marked incomplete".to_owned();
                } else {
                    self.state.status = "Completed task".to_owned();
                }
                proof {
                    assert(self.view().stored.contains_key(id@));
                    if in_step(o) {
                        lemma_changed_in_place(o, self.view(), list_index, outcome->Ok_0);
                    }
                }
                assert(task_command_shown(o, self.view(), list_index, outcome, gr, true));
                Ok(())
            },
            Err(e) => {
                self.state.status = task_error_message(e);
                assert(task_command_shown(o, self.view(), list_index, outcome, gr, true));
                Ok(())
            },
        }
    }
}

impl<R: TaskListRepository, I: IdGenerator> App<R, I> {
    /// Create a list named `value`.
    fn submit_create_list(&mut self, value: String) -> (r: Result<(), String>)
        requires
            old(self).wf(),
        ensures
            final(self).wf(),
            edit_done(old(self).view(), final(self).view(), EditAction::CreateList, value@, r is Ok),
    {
        let ghost o = self.view();
        let result = CreateTaskList::new(&mut self.repo, &self.ids).execute(value.as_str());
        let ghost gr = result;
        match result {
            Ok(id) => {
                match self.refresh() {
                    Ok(()) => {},
                    Err(m) => {
                        assert(create_outcome(o.stored, self.view().stored, value@, o.infallible, gr));
                        assert(!o.infallible);
                        return Err(m);
                    },
                }
                let ghost before_select = self.view();
                self.select_list_id(&id);
                proof {
                    assert(create_outcome(o.stored, before_select.stored, value@, o.infallible, gr));
                    assert(before_select.stored.contains_key(id@));
                    assert(exists|i: int| 0 <= i < before_select.lists.len() && #[trigger] before_select.lists[i].id == id@);
                }
                self.state.mode = Mode::Lists;
                self.state.status = "Created list ".to_owned().concat(value.as_str());
                assert(create_outcome(o.stored, self.view().stored, value@, o.infallible, gr));
                Ok(())
            },
            Err(e) => {
                self.state.status = create_error_message(e);
                assert(create_outcome(o.stored, self.view().stored, value@, o.infallible, gr));
                Ok(())
            },
        }
    }

    /// Rename the list at `index` to `value`.
    #[verifier::spinoff_prover]
    fn submit_rename_list(&mut self, index: usize, value: String) -> (r: Result<(), String>)
        requires
            old(self).wf(),
        ensures
            final(self).wf(),
            edit_done(old(self).view(), final(self).view(), EditAction::RenameList(index), value@, r is Ok),
    {
        let ghost o = self.view();
        let id = match self.list_id_at(index) {
            Some(id) => id,
            None => {
                self.state.status = "List not found".to_owned();
                return Ok(());
            },
        };
        let result = RenameTaskList::new(&mut self.repo).execute(&id, value.as_str());
        let ghost gr = result;
        match result {
            Ok(()) => {
                match self.refresh() {
                    Ok(()) => {},
                    Err(m) => {
                        assert(rename_outcome(o.stored, self.view().stored, id@, value@, o.infallible, gr));
                        proof {
                            let f = self.view();
                            let lid = o.lists[index as int].id;
                            assert(lid == id@);
                            assert(rename_outcome(o.stored, f.stored, lid, value@, o.infallible, gr));
                            assert(f.listed == saved_order(o.listed, renamed(o.stored[lid], value@)));
                            assert(!o.infallible);
                            assert(command_frame(o, f, false));
                            lemma_rename_unfinished(o, f, index, value@, gr);
                        }
                        return Err(m);
                    },
                }
                let last = if self.state.lists.len() == 0 {
                    0
                } else {
                    self.state.lists.len() - 1
                };
                self.state.selected_list = if index < last {
                    index
                } else {
                    last
                };
                self.state.status = "Renamed list to ".to_owned().concat(value.as_str());
                assert(rename_outcome(o.stored, self.view().stored, id@, value@, o.infallible, gr));
                Ok(())
            },
            Err(e) => {
                self.state.status = rename_error_message(e);
                assert(rename_outcome(o.stored, self.view().stored, id@, value@, o.infallible, gr));
                Ok(())
            },
        }
    }

    /// Add a task titled `value` to the list at `list_index`.
    fn submit_create_task(&mut self, list_index: usize, value: String) -> (r: Result<(), String>)
        requires
            old(self).wf(),
        ensures
            final(self).wf(),
            edit_done(old(self).view(), final(self).view(), EditAction::CreateTask(list_index), value@, r is Ok),
    {
        let ghost o = self.view();
        let id = match self.list_id_at(list_index) {
            Some(id) => id,
            None => {
                self.state.status = "List not found".to_owned();
                return Ok(());
            },
        };
        let ghost outcome = spec_add_task(o.stored[id@], value@);
        let result = AddTask::new(&mut self.repo).execute(&id, value.as_str());
        let ghost gr = result;
        match result {
            Ok(()) => {
                self.state.selected_list = list_index;
                self.state.mode = Mode::Tasks(list_index);
                match self.refresh() {
                    Ok(()) => {},
                    Err(m) => {
                        assert(task_command_shown(o, self.view(), list_index, outcome, gr, false));
                        assert(!o.infallible);
                        return Err(m);
                    },
                }
                if self.state.tasks.len() > 0 {
                    self.state.selected_task = self.state.tasks.len() - 1;
                }
                self.state.status = "Created task ".to_owned().concat(value.as_str());
                proof {
                    assert(self.view().stored.contains_key(id@));
                    if in_step(o) {
                        lemma_changed_in_place(o, self.view(), list_index, outcome->Ok_0);
                    }
                }
                assert(task_command_shown(o, self.view(), list_index, outcome, gr, true));
                Ok(())
            },
            Err(e) => {
                self.state.status = task_error_message(e);
                assert(task_command_shown(o, self.view(), list_index, outcome, gr, true));
                Ok(())
            },
        }
    }

    /// Rename the task at `task_index` of the list at `list_index` to `value`.
    fn submit_rename_task(&mut self, list_index: usize, task_index: usize, value: String) -> (r:
        Result<(), String>)
        requires
            old(self).wf(),
        ensures
            final(self).wf(),
            edit_done(
                old(self).view(),
                final(self).view(),
                EditAction::RenameTask { list_index, task_index },
                value@,
                r is Ok,
            ),
    {
        let ghost o = self.view();
        let id = match self.list_id_at(list_index) {
            Some(id) => id,
            None => {
                self.state.status = "List not found".to_owned();
                return Ok(());
            },
        };
        let old_title = match self.task_title_at(task_index) {
            Some(t) => t,
            None => {
                self.state.status = "Task not found".to_owned();
                return Ok(());
            },
        };
        let ghost outcome = spec_rename_task(o.stored[id@], old_title@, value@);
        let result = RenameTask::new(&mut self.repo).execute(&id, old_title.as_str(), value.as_str());
        let ghost gr = result;
        match result {
            Ok(()) => {
                self.state.selected_list = list_index;
                self.state.mode = Mode::Tasks(list_index);
                match self.refresh() {
                    Ok(()) => {},
                    Err(m) => {
                        assert(task_command_shown(o, self.view(), list_index, outcome, gr, false));
                        assert(!o.infallible);
                        return Err(m);
                    },
                }
                let last = if self.state.tasks.len() == 0 {
                    0
                } else {
                    self.state.tasks.len() - 1
                };
                self.state.selected_task = if task_index < last {
                    task_index
                } else {
                    last
                };
                self.state.status = "Renamed task to ".to_owned().concat(value.as_str());
                proof {
                    assert(self.view().stored.contains_key(id@));
                    if in_step(o) {
                        lemma_changed_in_place(o, self.view(), list_index, outcome->Ok_0);
                    }
                }
                assert(task_command_shown(o, self.view(), list_index, outcome, gr, true));
                Ok(())
            },
            Err(e) => {
                self.state.status = task_error_message(e);
                assert(task_command_shown(o, self.view(), list_index, outcome, gr, true));
                Ok(())
            },
        }
    }

    /// Hand the text being edited, trimmed, to the use case the prompt was
    /// opened for.
    fn submit_edit(&mut self, action: EditAction) -> (r: Result<(), String>)
        requires
            old(self).wf(),
        ensures
            final(self).wf(),
            edit_submitted(old(self).view(), final(self).view(), action, r is Ok),
    {
        let ghost o = self.view();
        let value = trim(self.state.input.as_str());
        self.state.input = String::new();
        self.state.interaction = Interaction::Idle;
        assert(self.view() == AppView { interaction: Interaction::Idle, input: Seq::empty(), ..o });
        match action {
            EditAction::CreateList => self.submit_create_list(value),
            EditAction::RenameList(index) => self.submit_rename_list(index, value),
            EditAction::CreateTask(list_index) => self.submit_create_task(list_index, value),
            EditAction::RenameTask { list_index, task_index } => self.submit_rename_task(
                list_index,
                task_index,
                value,
            ),
        }
    }

    /// Delete the list at `index`.
    #[verifier::spinoff_prover]
    fn submit_delete_list(&mut self, index: usize) -> (r: Result<(), String>)
        requires
            old(self).wf(),
        ensures
            final(self).wf(),
            confirm_done(old(self).view(), final(self).view(), ConfirmAction::DeleteList(index), r is Ok),
    {
        let ghost o = self.view();
        let id = match self.list_id_at(index) {
            Some(id) => id,
            None => {
                self.state.status = "List not found".to_owned();
                return Ok(());
            },
        };
        let result = DeleteTaskList::new(&mut self.repo).execute(&id);
        let ghost gr = result;
        match result {
            Ok(()) => {
                self.state.mode = Mode::Lists;
                self.state.tasks = Vec::new();
                self.state.selected_list = index;
                self.state.selected_task = 0;
                assert(task_views(self.state.tasks@) =~= Seq::<TaskView>::empty());
                match self.refresh() {
                    Ok(()) => {},
                    Err(m) => {
                        assert(delete_outcome(o.stored, self.view().stored, id@, o.infallible, gr));
                        proof {
                            let f = self.view();
                            let lid = o.lists[index as int].id;
                            assert(lid == id@);
                            assert(delete_outcome(o.stored, f.stored, lid, o.infallible, gr));
                            assert(f.listed == deleted_order(o.listed, lid));
                            assert(!o.infallible);
                            assert(command_frame(o, f, false));
                        }
                        return Err(m);
                    },
                }
                self.state.status = "Deleted list".to_owned();
                assert(delete_outcome(o.stored, self.view().stored, id@, o.infallible, gr));
                Ok(())
            },
            Err(e) => {
                self.state.status = delete_error_message(e);
                assert(delete_outcome(o.stored, self.view().stored, id@, o.infallible, gr));
                Ok(())
            },
        }
    }

    /// Delete the task at `task_index` of the list at `list_index`.
    fn submit_delete_task(&mut self, list_index: usize, task_index: usize) -> (r: Result<(), String>)
        requires
            old(self).wf(),
        ensures
            final(self).wf(),
            confirm_done(
                old(self).view(),
                final(self).view(),
                ConfirmAction::DeleteTask { list_index, task_index },
                r is Ok,
            ),
    {
        let ghost o = self.view();
        let id = match self.list_id_at(list_index) {
            Some(id) => id,
            None => {
                self.state.status = "List not found".to_owned();
                return Ok(());
            },
        };
        let title = match self.task_title_at(task_index) {
            Some(t) => t,
            None => {
                self.state.status = "Task not found".to_owned();
                return Ok(());
            },
        };
        let ghost outcome = spec_remove_task(o.stored[id@], title@);
        let result = DeleteTask::new(&mut self.repo).execute(&id, title.as_str());
        let ghost gr = result;
        match result {
            Ok(()) => {
                self.state.selected_list = list_index;
                self.state.selected_task = task_index;
                self.state.mode = Mode::Tasks(list_index);
                match self.refresh() {
                    Ok(()) => {},
                    Err(m) => {
                        assert(task_command_shown(o, self.view(), list_index, outcome, gr, false));
                        assert(!o.infallible);
                        return Err(m);
                    },
                }
                self.state.status = "Deleted task".to_owned();
                proof {
                    assert(self.view().stored.contains_key(id@));
                    if in_step(o) {
                        lemma_changed_in_place(o, self.view(), list_index, outcome->Ok_0);
                    }
                }
                assert(task_command_shown(o, self.view(), list_index, outcome, gr, true));
                Ok(())
            },
            Err(e) => {
                self.state.status = task_error_message(e);
                assert(task_command_shown(o, self.view(), list_index, outcome, gr, true));
                Ok(())
            },
        }
    }

    /// Carry out the deletion that was confirmed.
    fn submit_confirm(&mut self, action: ConfirmAction) -> (r: Result<(), String>)
        requires
            old(self).wf(),
        ensures
            final(self).wf(),
            confirm_submitted(old(self).view(), final(self).view(), action, r is Ok),
    {
        self.state.interaction = Interaction::Idle;
        match action {
            ConfirmAction::DeleteList(index) => self.submit_delete_list(index),
            ConfirmAction::DeleteTask { list_index, task_index } => self.submit_delete_task(
                list_index,
                task_index,
            ),
        }
    }
}


impl<R: TaskListRepository, I: IdGenerator> App<R, I> {
    /// Handle one key press. The answer is whether the program should end.
    pub fn handle_key(&mut self, key: Key) -> (r: Result<bool, String>)
        requires
            old(self).wf(),
        ensures
            final(self).wf(),
            key_effect(old(self).view(), final(self).view(), key, r is Ok),
            (r == Ok::<bool, String>(true)) <==> quits(old(self).view(), key),
            old(self).view().infallible && in_step(old(self).view()) ==> r is Ok,
            old(self).view().infallible && in_step(old(self).view()) ==> in_step(final(self).view()),
    {
        match self.state.interaction {
            Interaction::Idle => self.handle_normal_key(key),
            Interaction::Help => {
                if key == Key::Char('q') {
                    return Ok(true);
                }
                if key == Key::Esc || key == Key::Char('?') {
                    self.state.interaction = Interaction::Idle;
                }
                Ok(false)
            },
            Interaction::Editing(action) => {
                match self.handle_edit_key(action, key) {
                    Ok(()) => Ok(false),
                    Err(m) => Err(m),
                }
            },
            Interaction::Confirming(action) => {
                match self.handle_confirm_key(action, key) {
                    Ok(()) => Ok(false),
                    Err(m) => Err(m),
                }
            },
        }
    }

    fn handle_normal_key(&mut self, key: Key) -> (r: Result<bool, String>)
        requires
            old(self).wf(),
            old(self).view().interaction == Interaction::Idle,
        ensures
            final(self).wf(),
            normal_key_effect(old(self).view(), final(self).view(), key, r is Ok),
            (r == Ok::<bool, String>(true)) <==> key == Key::Char('q'),
    {
        match key {
            Key::Char('q') => Ok(true),
            Key::Char('?') => {
                self.state.interaction = Interaction::Help;
                Ok(false)
            },
            Key::Char('n') => {
                self.start_create();
                Ok(false)
            },
            Key::Char('r') => {
                self.start_rename();
                Ok(false)
            },
            Key::Char('d') => {
                self.start_delete();
                Ok(false)
            },
            Key::Char(' ') => {
                match self.toggle_selected_task() {
                    Ok(()) => Ok(false),
                    Err(m) => Err(m),
                }
            },
            Key::Down => {
                self.select_next();
                Ok(false)
            },
            Key::Up => {
                self.select_previous();
                Ok(false)
            },
            Key::Enter | Key::Right => {
                if self.state.mode == Mode::Lists {
                    match self.open_tasks() {
                        Ok(()) => {},
                        Err(m) => return Err(m),
                    }
                }
                Ok(false)
            },
            Key::Esc | Key::Left => {
                if self.state.mode != Mode::Lists {
                    self.close_tasks();
                }
                Ok(false)
            },
            Key::Tab | Key::BackTab => {
                if self.state.mode == Mode::Lists {
                    match self.open_tasks() {
                        Ok(()) => {},
                        Err(m) => return Err(m),
                    }
                } else {
                    self.close_tasks();
                }
                Ok(false)
            },
            _ => Ok(false),
        }
    }

    fn handle_edit_key(&mut self, action: EditAction, key: Key) -> (r: Result<(), String>)
        requires
            old(self).wf(),
        ensures
            final(self).wf(),
            edit_key_effect(old(self).view(), final(self).view(), action, key, r is Ok),
    {
        match key {
            Key::Enter => self.submit_edit(action),
            Key::Esc => {
                self.state.interaction = Interaction::Idle;
                self.state.input = String::new();
                self.state.status = "Cancelled".to_owned();
                Ok(())
            },
            Key::Backspace => {
                let _ = pop_char(&mut self.state.input);
                Ok(())
            },
            Key::Char(c) => {
                if !char_is_control(c) {
                    push_char(&mut self.state.input, c);
                }
                Ok(())
            },
            _ => Ok(()),
        }
    }

    fn handle_confirm_key(&mut self, action: ConfirmAction, key: Key) -> (r: Result<(), String>)
        requires
            old(self).wf(),
        ensures
            final(self).wf(),
            confirm_key_effect(old(self).view(), final(self).view(), action, key, r is Ok),
    {
        match key {
            Key::Char('y') | Key::Char('Y') => self.submit_confirm(action),
            Key::Char('n') | Key::Char('N') | Key::Esc => {
                self.state.interaction = Interaction::Idle;
                self.state.status = "Cancelled".to_owned();
                Ok(())
            },
            _ => Ok(()),
        }
    }
}

/// One step forward among `n` items from a valid position.
proof fn lemma_wrap_next(i: nat, n: nat)
    requires
        i < n,
    ensures
        wrap_next(i, n) == if i + 1 < n {
            i + 1
        } else {
            0
        },
{
    if i + 1 < n {
        vstd::arithmetic::div_mod::lemma_small_mod(i + 1, n);
    } else {
        vstd::arithmetic::div_mod::lemma_mod_self_0(n as int);
    }
}

/// Moving the selection forward and then back returns to where it was, in
/// either panel, and so does moving back and then forward.
pub proof fn law_down_then_up_returns(o: AppView)
    requires
        app_wf(o),
    ensures
        moved(moved(o, true), false).selected_list == o.selected_list,
        moved(moved(o, true), false).selected_task == o.selected_task,
        moved(moved(o, false), true).selected_list == o.selected_list,
        moved(moved(o, false), true).selected_task == o.selected_task,
{
    if o.lists.len() > 0 {
        lemma_wrap_next(o.selected_list, o.lists.len());
        lemma_wrap_next(wrap_prev(o.selected_list, o.lists.len()), o.lists.len());
    }
    if o.tasks.len() > 0 {
        lemma_wrap_next(o.selected_task, o.tasks.len());
        lemma_wrap_next(wrap_prev(o.selected_task, o.tasks.len()), o.tasks.len());
    }
}

/// Moving the selection keeps it within the focused panel's items, wrapping
/// from the last to the first and from the first to the last.
pub proof fn law_selection_wraps(o: AppView)
    requires
        app_wf(o),
    ensures
        app_wf(moved(o, true)),
        app_wf(moved(o, false)),
        o.mode == Mode::Lists && o.lists.len() > 0 && o.selected_list == o.lists.len() - 1
            ==> moved(o, true).selected_list == 0,
        o.mode == Mode::Lists && o.lists.len() > 0 && o.selected_list == 0 ==> moved(
            o,
            false,
        ).selected_list == o.lists.len() - 1,
        o.mode is Tasks && o.tasks.len() > 0 && o.selected_task == o.tasks.len() - 1 ==> moved(
            o,
            true,
        ).selected_task == 0,
        o.mode is Tasks && o.tasks.len() > 0 && o.selected_task == 0 ==> moved(
            o,
            false,
        ).selected_task == o.tasks.len() - 1,
{
    if o.lists.len() > 0 {
        lemma_wrap_next(o.selected_list, o.lists.len());
    }
    if o.tasks.len() > 0 {
        lemma_wrap_next(o.selected_task, o.tasks.len());
    }
}

/// Only submitting a prompt, confirming a deletion, or toggling a task can
/// change the repository: every other key, and in particular cancelling,
/// leaves it as it was.
pub proof fn law_only_submissions_change_repository(o: AppView, f: AppView, key: Key, ok: bool)
    requires
        key_effect(o, f, key, ok),
        !(o.interaction is Editing && key == Key::Enter),
        !(o.interaction is Confirming && (key == Key::Char('y') || key == Key::Char('Y'))),
        !(o.interaction == Interaction::Idle && key == Key::Char(' ')),
    ensures
        f.stored == o.stored,
{
}

/// While a text is being edited or a deletion waits for confirmation, no key
/// ends the program; `q` is typed into the text like any other letter.
pub proof fn law_q_is_typed_while_editing(o: AppView, f: AppView, action: EditAction, ok: bool)
    requires
        o.interaction == Interaction::Editing(action),
        key_effect(o, f, Key::Char('q'), ok),
    ensures
        !quits(o, Key::Char('q')),
        f == with_input(o, o.input.push('q')),
        ok,
{
}

/// Up moves the selection of the focused panel one step back, the first
/// item wrapping to the last, and leaves everything else but the status
/// line, which then describes the new selection. With the help, a prompt or
/// a confirmation open, Up changes nothing. Either way it succeeds.
pub proof fn law_up_steps_back(o: AppView, f: AppView, ok: bool)
    requires
        app_wf(o),
        key_effect(o, f, Key::Up, ok),
    ensures
        ok,
        o.interaction != Interaction::Idle ==> f == o,
        o.interaction == Interaction::Idle ==> {
            &&& f.lists == o.lists
            &&& f.tasks == o.tasks
            &&& f.mode == o.mode
            &&& f.stored == o.stored
            &&& f.status == selection_text(f)
            &&& o.mode is Lists ==> f.selected_task == o.selected_task
            &&& o.mode is Tasks ==> f.selected_list == o.selected_list
            &&& o.mode is Lists && o.lists.len() > 0 ==> f.selected_list == (o.selected_list
                + o.lists.len() - 1) % (o.lists.len() as int)
            &&& o.mode is Tasks && o.tasks.len() > 0 ==> f.selected_task == (o.selected_task
                + o.tasks.len() - 1) % (o.tasks.len() as int)
        },
{
    if o.interaction == Interaction::Idle {
        let n: nat = match o.mode {
            Mode::Lists => o.lists.len(),
            Mode::Tasks(_) => o.tasks.len(),
        };
        let s: nat = match o.mode {
            Mode::Lists => o.selected_list,
            Mode::Tasks(_) => o.selected_task,
        };
        if n > 0 {
            if s == 0 {
                vstd::arithmetic::div_mod::lemma_small_mod((n - 1) as nat, n);
                assert((s + n - 1) % (n as int) == n - 1);
            } else {
                vstd::arithmetic::div_mod::lemma_mod_add_multiples_vanish(s - 1, n as int);
                vstd::arithmetic::div_mod::lemma_small_mod((s - 1) as nat, n);
                assert((s + n - 1) % (n as int) == s - 1);
            }
        }
    }
}

/// Space in the task panel flips the selected task, and only it: the task
/// stored under the selected task's title in the open list takes the
/// opposite of the completion the panel shows for it, every other task and
/// list stays, and the status line says which way it went.
pub proof fn law_space_toggles_the_selected_task(o: AppView, f: AppView, ok: bool, i: usize)
    requires
        app_wf(o),
        o.interaction == Interaction::Idle,
        o.mode == Mode::Tasks(i),
        i < o.lists.len(),
        o.selected_task < o.tasks.len(),
        o.infallible,
        o.stored.contains_key(o.lists[i as int].id),
        has_title(o.stored[o.lists[i as int].id].tasks, o.tasks[o.selected_task as int].title),
        key_effect(o, f, Key::Char(' '), ok),
    ensures
        ok,
        exists|k: int|
            {
                &&& 0 <= k < o.stored[o.lists[i as int].id].tasks.len()
                &&& #[trigger] o.stored[o.lists[i as int].id].tasks[k].title == o.tasks[o.selected_task as int].title
                &&& f.stored == o.stored.insert(
                    o.lists[i as int].id,
                    TaskListView {
                        tasks: o.stored[o.lists[i as int].id].tasks.update(
                            k,
                            TaskView {
                                title: o.tasks[o.selected_task as int].title,
                                completed: !o.tasks[o.selected_task as int].completed,
                            },
                        ),
                        ..o.stored[o.lists[i as int].id]
                    },
                )
            },
        f.status == (if o.tasks[o.selected_task as int].completed {
            "Marked incomplete"@
        } else {
            "Completed task"@
        }),
{
    let id = o.lists[i as int].id;
    let t = o.tasks[o.selected_task as int];
    let outcome = toggle_outcome(o.stored[id], t);
    assert(toggled(o, f, ok));
    let r = choose|r: Result<(), TaskCommandError>|
        {
            &&& #[trigger] task_command_shown(o, f, i, outcome, r, ok)
            &&& r is Ok && ok ==> {
                &&& f.selected_task == clamped(o.selected_task, f.tasks.len())
                &&& f.status == (if t.completed {
                    "Marked incomplete"@
                } else {
                    "Completed task"@
                })
            }
        };
    let k = title_index(o.stored[id].tasks, t.title);
    assert(r is Ok);
    assert(o.stored[id].tasks[k].title == t.title);
}

/// Pressing `d` and then `y` in the task panel deletes the selected task,
/// and only it: the task stored under its title leaves the open list, every
/// other task and list stays, and the status line says so.
pub proof fn law_d_then_y_deletes_the_selected_task(
    o: AppView,
    f1: AppView,
    f2: AppView,
    ok1: bool,
    ok2: bool,
    i: usize,
)
    requires
        app_wf(o),
        o.interaction == Interaction::Idle,
        o.mode == Mode::Tasks(i),
        i < o.lists.len(),
        o.selected_task < o.tasks.len(),
        o.selected_task <= usize::MAX,
        o.infallible,
        o.stored.contains_key(o.lists[i as int].id),
        has_title(o.stored[o.lists[i as int].id].tasks, o.tasks[o.selected_task as int].title),
        key_effect(o, f1, Key::Char('d'), ok1),
        key_effect(f1, f2, Key::Char('y'), ok2),
    ensures
        ok1,
        ok2,
        exists|k: int|
            {
                &&& 0 <= k < o.stored[o.lists[i as int].id].tasks.len()
                &&& #[trigger] o.stored[o.lists[i as int].id].tasks[k].title == o.tasks[o.selected_task as int].title
                &&& f2.stored == o.stored.insert(
                    o.lists[i as int].id,
                    TaskListView {
                        tasks: o.stored[o.lists[i as int].id].tasks.remove(k),
                        ..o.stored[o.lists[i as int].id]
                    },
                )
            },
        f2.status == "Deleted task"@,
{
    let id = o.lists[i as int].id;
    let j = o.selected_task as usize;
    let t = o.tasks[j as int];
    let action = ConfirmAction::DeleteTask { list_index: i, task_index: j };
    assert(f1 == delete_started(o));
    assert(f1.interaction == Interaction::Confirming(action));
    assert(confirm_submitted(f1, f2, action, ok2));
    let g = with_interaction(f1, Interaction::Idle);
    assert(confirm_done(g, f2, action, ok2));
    let outcome = spec_remove_task(g.stored[id], g.tasks[j as int].title);
    let k = title_index(o.stored[id].tasks, t.title);
    assert(o.stored[id].tasks[k].title == t.title);
}

/// Pressing `r` in the task panel, typing a text and pressing Enter renames
/// the selected task, and only it, to the text without its surrounding white
/// space: the task stored under the selected task's title takes the new
/// title and keeps its completion, every other task and list stays, and the
/// status line says so.
pub proof fn law_r_then_enter_renames_the_selected_task(
    o: AppView,
    f1: AppView,
    typed: Seq<char>,
    f2: AppView,
    ok1: bool,
    ok2: bool,
    i: usize,
)
    requires
        app_wf(o),
        o.interaction == Interaction::Idle,
        o.mode == Mode::Tasks(i),
        i < o.lists.len(),
        o.selected_task < o.tasks.len(),
        o.selected_task <= usize::MAX,
        o.infallible,
        o.stored.contains_key(o.lists[i as int].id),
        has_title(o.stored[o.lists[i as int].id].tasks, o.tasks[o.selected_task as int].title),
        !is_blank(trimmed(typed)),
        !has_title(o.stored[o.lists[i as int].id].tasks, trimmed(typed)) || trimmed(typed)
            == o.tasks[o.selected_task as int].title,
        key_effect(o, f1, Key::Char('r'), ok1),
        key_effect(with_input(f1, typed), f2, Key::Enter, ok2),
    ensures
        ok1,
        ok2,
        exists|k: int|
            {
                &&& 0 <= k < o.stored[o.lists[i as int].id].tasks.len()
                &&& #[trigger] o.stored[o.lists[i as int].id].tasks[k].title == o.tasks[o.selected_task as int].title
                &&& f2.stored == o.stored.insert(
                    o.lists[i as int].id,
                    TaskListView {
                        tasks: o.stored[o.lists[i as int].id].tasks.update(
                            k,
                            TaskView {
                                title: trimmed(typed),
                                completed: o.stored[o.lists[i as int].id].tasks[k].completed,
                            },
                        ),
                        ..o.stored[o.lists[i as int].id]
                    },
                )
            },
        f2.status == "Renamed task to "@ + trimmed(typed),
{
    let id = o.lists[i as int].id;
    let j = o.selected_task as usize;
    let t = o.tasks[j as int];
    let action = EditAction::RenameTask { list_index: i, task_index: j };
    assert(f1 == rename_started(o));
    let g0 = with_input(f1, typed);
    assert(g0.interaction == Interaction::Editing(action));
    assert(edit_submitted(g0, f2, action, ok2));
    let g = AppView { interaction: Interaction::Idle, input: Seq::empty(), ..g0 };
    let value = trimmed(typed);
    assert(edit_done(g, f2, action, value, ok2));
    let outcome = spec_rename_task(g.stored[id], g.tasks[j as int].title, value);
    let k = title_index(o.stored[id].tasks, t.title);
    assert(o.stored[id].tasks[k].title == t.title);
}

/// A list created from the prompt is named what was typed without its
/// surrounding white space: the name is a stretch of the typed text with
/// only white space before and after it, and it neither starts nor ends
/// with white space.
pub proof fn law_created_list_name_is_trimmed(o: AppView, f: AppView, ok: bool, k: Seq<char>)
    requires
        edit_submitted(o, f, EditAction::CreateList, ok),
        o.infallible,
        f.stored.contains_key(k),
        !o.stored.contains_key(k),
    ensures
        exists|a: int, b: int|
            {
                &&& 0 <= a <= b <= o.input.len()
                &&& #[trigger] o.input.subrange(a, b) == f.stored[k].name
                &&& is_blank(o.input.subrange(0, a))
                &&& is_blank(o.input.subrange(b, o.input.len() as int))
            },
        f.stored[k].name.len() > 0,
        !is_white_space(f.stored[k].name[0]),
        !is_white_space(f.stored[k].name.last()),
{
    let g = AppView { interaction: Interaction::Idle, input: Seq::empty(), ..o };
    let value = trimmed(o.input);
    assert(edit_done(g, f, EditAction::CreateList, value, ok));
    assert(f.stored[k].name == value);
    law_trim_drops_only_surrounding_white_space(o.input);
    if value.len() == 0 {
        assert(is_blank(value));
    }
}

/// Right does what Enter does, Left what Esc does, and Shift+Tab what Tab
/// does; Tab opens the task panel from the list panel and closes it again.
pub proof fn law_key_aliases(o: AppView, f: AppView, ok: bool)
    ensures
        normal_key_effect(o, f, Key::Right, ok) == normal_key_effect(o, f, Key::Enter, ok),
        normal_key_effect(o, f, Key::Left, ok) == normal_key_effect(o, f, Key::Esc, ok),
        normal_key_effect(o, f, Key::BackTab, ok) == normal_key_effect(o, f, Key::Tab, ok),
        o.mode is Tasks ==> (normal_key_effect(o, f, Key::Tab, ok) <==> f == tasks_closed(o) && ok),
{
}

/// One line of a panel, with the colour of its text if it has one of its own.
#[derive(Debug, PartialEq, Eq)]
pub struct Row {
    pub text: String,
    pub color: Option<NamedColor>,
}

impl View for Row {
    type V = (Seq<char>, Option<NamedColor>);

    open spec fn view(&self) -> (Seq<char>, Option<NamedColor>) {
        (self.text@, self.color)
    }
}

/// The views of a sequence of lines.
pub open spec fn row_views(rows: Seq<Row>) -> Seq<(Seq<char>, Option<NamedColor>)> {
    rows.map_values(|r: Row| r@)
}

/// A bordered panel: its title, its lines, the colour of its border and
/// title when it has one, and the line shown as selected, if any.
#[derive(Debug, PartialEq, Eq)]
pub struct Panel {
    pub title: String,
    pub rows: Vec<Row>,
    pub border: Option<NamedColor>,
    pub selected: Option<usize>,
}

/// What a panel shows.
pub struct PanelView {
    pub title: Seq<char>,
    pub rows: Seq<(Seq<char>, Option<NamedColor>)>,
    pub border: Option<NamedColor>,
    pub selected: Option<usize>,
}

impl View for Panel {
    type V = PanelView;

    open spec fn view(&self) -> PanelView {
        PanelView {
            title: self.title@,
            rows: row_views(self.rows@),
            border: self.border,
            selected: self.selected,
        }
    }
}

/// How the selected line of a panel stands out.
#[derive(Clone, Copy, Debug, PartialEq, Eq, Structural)]
pub enum Highlight {
    Reversed,
    Colors { fg: NamedColor, bg: NamedColor },
}

/// The colour of a panel's border and title.
pub open spec fn panel_color_of(theme: ColourTheme, active: bool) -> NamedColor {
    if active {
        theme.active_panel_border
    } else {
        theme.inactive_panel_border
    }
}

/// How the selected line stands out under `theme`.
pub open spec fn highlight_of(theme: ColourTheme) -> Highlight {
    if theme.selected_item_reverse {
        Highlight::Reversed
    } else {
        Highlight::Colors { fg: theme.selected_item_fg, bg: theme.selected_item_bg }
    }
}

/// The marker in front of a line: `>>` on the selected one.
pub open spec fn marker(selected: bool) -> Seq<char> {
    if selected {
        ">>"@
    } else {
        "  "@
    }
}

/// The line of the list at `i`: marker, a check mark or "pending", and name;
/// completed lists take the theme's completed colour.
pub open spec fn list_row(v: AppView, i: int) -> (Seq<char>, Option<NamedColor>) {
    let l = v.lists[i];
    let done = list_completed(l);
    (
        marker(i == v.selected_list) + " "@ + (if done {
            "\u{2713}"@
        } else {
            "pending"@
        }) + " "@ + l.name,
        if done {
            Some(v.theme.completed_task_fg)
        } else {
            None
        },
    )
}

/// The line of the task at `i`: marker, a check mark or an empty box, and
/// title; done tasks take the theme's completed colour.
pub open spec fn task_row(v: AppView, i: int) -> (Seq<char>, Option<NamedColor>) {
    let t = v.tasks[i];
    (
        marker(i == v.selected_task) + " "@ + (if t.completed {
            "\u{2713}"@
        } else {
            "\u{2610}"@
        }) + " "@ + t.title,
        if t.completed {
            Some(v.theme.completed_task_fg)
        } else {
            None
        },
    )
}

/// The lines of the first `n` lists.
pub open spec fn list_rows(v: AppView, n: nat) -> Seq<(Seq<char>, Option<NamedColor>)> {
    Seq::new(n, |i: int| list_row(v, i))
}

/// The lines of the first `n` tasks.
pub open spec fn task_rows_of(v: AppView, n: nat) -> Seq<(Seq<char>, Option<NamedColor>)> {
    Seq::new(n, |i: int| task_row(v, i))
}

/// A line of plain text.
pub open spec fn plain(text: Seq<char>) -> (Seq<char>, Option<NamedColor>) {
    (text, None)
}

/// The panel of task lists.
pub open spec fn lists_panel_of(v: AppView) -> PanelView {
    PanelView {
        title: "Task Lists"@,
        rows: if v.lists.len() == 0 {
            seq![plain("No task lists"@)]
        } else {
            list_rows(v, v.lists.len())
        },
        border: Some(panel_color_of(v.theme, v.mode == Mode::Lists)),
        selected: if v.lists.len() == 0 {
            None
        } else {
            Some(v.selected_list as usize)
        },
    }
}

/// The help text for a panel.
pub open spec fn help_rows(mode: Mode) -> Seq<(Seq<char>, Option<NamedColor>)> {
    match mode {
        Mode::Lists => seq![
            plain("List mode"@),
            plain("n new list"@),
            plain("r rename list"@),
            plain("d delete list"@),
            plain("Enter/Right/Tab open tasks"@),
            plain("Up/Down select list"@),
            plain("Esc close help"@),
            plain("q quit"@),
        ],
        Mode::Tasks(_) => seq![
            plain("Task mode"@),
            plain("n new task"@),
            plain("r rename task"@),
            plain("d delete task"@),
            plain("Space toggle complete"@),
            plain("Up/Down select task"@),
            plain("Esc/Left/Tab return to lists"@),
            plain("q quit"@),
        ],
    }
}

/// The prompt of a text being edited.
pub open spec fn edit_prompt(a: EditAction) -> Seq<char> {
    match a {
        EditAction::CreateList => "New list"@,
        EditAction::RenameList(_) => "Rename list"@,
        EditAction::CreateTask(_) => "New task"@,
        EditAction::RenameTask { .. } => "Rename task"@,
    }
}

/// The question of a deletion waiting for confirmation.
pub open spec fn confirm_prompt(a: ConfirmAction) -> Seq<char> {
    match a {
        ConfirmAction::DeleteList(_) => "Delete list? y/n"@,
        ConfirmAction::DeleteTask { .. } => "Delete task? y/n"@,
    }
}

/// The right-hand panel: help, the text being edited, the question being
/// confirmed, or the tasks of the open list.
pub open spec fn tasks_panel_of(v: AppView) -> PanelView {
    match v.interaction {
        Interaction::Help => PanelView {
            title: "Help"@,
            rows: help_rows(v.mode),
            border: None,
            selected: None,
        },
        Interaction::Editing(a) => PanelView {
            title: "Edit"@,
            rows: seq![
                plain(edit_prompt(a) + ": "@ + v.input),
                plain("Enter submit"@),
                plain("Esc cancel"@),
            ],
            border: None,
            selected: None,
        },
        Interaction::Confirming(a) => PanelView {
            title: "Confirm"@,
            rows: seq![plain(confirm_prompt(a)), plain("Esc cancel"@)],
            border: None,
            selected: None,
        },
        Interaction::Idle => PanelView {
            title: "Tasks"@,
            rows: match v.mode {
                Mode::Lists => seq![plain("No task list open"@)],
                Mode::Tasks(_) => if v.tasks.len() == 0 {
                    seq![plain("No tasks"@)]
                } else {
                    task_rows_of(v, v.tasks.len())
                },
            },
            border: Some(panel_color_of(v.theme, v.mode is Tasks)),
            selected: if v.mode is Tasks && v.tasks.len() > 0 {
                Some(v.selected_task as usize)
            } else {
                None
            },
        },
    }
}

/// The status line: the last message, or else a description of the
/// selection.
pub open spec fn status_text_of(v: AppView) -> Seq<char> {
    if v.status.len() == 0 {
        selection_text(v)
    } else {
        v.status
    }
}

/// The bar of keys that work right now.
pub open spec fn hotkeys_of(v: AppView) -> Seq<char> {
    match v.interaction {
        Interaction::Idle => match v.mode {
            Mode::Lists => "n: new  r: rename  d: delete  Enter/Tab: open tasks  q: quit"@,
            Mode::Tasks(_) => "n: new  r: rename  d: delete  Space: toggle  Esc/Tab: lists  q: quit"@,
        },
        Interaction::Help => "?: close help  q: quit"@,
        Interaction::Editing(_) => "Enter: submit  Esc: cancel"@,
        Interaction::Confirming(_) => "y: confirm  n/Esc: cancel"@,
    }
}

fn text(s: &str) -> (r: String)
    ensures
        r@ == s@,
{
    s.to_owned()
}

fn plain_row(s: &str) -> (r: Row)
    ensures
        r@ == plain(s@),
{
    Row { text: s.to_owned(), color: None }
}

fn marked_line(selected: bool, badge: &str, name: &str) -> (r: String)
    ensures
        r@ == marker(selected) + " "@ + badge@ + " "@ + name@,
{
    let mut s = if selected {
        text(">>")
    } else {
        text("  ")
    };
    s.append(" ");
    s.append(badge);
    s.append(" ");
    s.append(name);
    s
}

impl<R: TaskListRepository, I: IdGenerator> App<R, I> {
    /// The colour of a panel's border and title.
    pub fn panel_color(&self, active: bool) -> (r: NamedColor)
        ensures
            r == panel_color_of(self.view().theme, active),
    {
        if active {
            self.theme.active_panel_border
        } else {
            self.theme.inactive_panel_border
        }
    }

    /// How the selected line stands out.
    pub fn highlight(&self) -> (r: Highlight)
        ensures
            r == highlight_of(self.view().theme),
    {
        if self.theme.selected_item_reverse {
            Highlight::Reversed
        } else {
            Highlight::Colors { fg: self.theme.selected_item_fg, bg: self.theme.selected_item_bg }
        }
    }

    /// The panel of task lists.
    pub fn lists_panel(&self) -> (r: Panel)
        requires
            self.wf(),
        ensures
            r@ == lists_panel_of(self.view()),
    {
        let ghost v = self.view();
        let mut rows: Vec<Row> = Vec::new();
        if self.state.lists.len() == 0 {
            rows.push(plain_row("No task lists"));
            assert(row_views(rows@) =~= seq![plain("No task lists"@)]);
        } else {
            let mut i: usize = 0;
            while i < self.state.lists.len()
                invariant
                    v == self.view(),
                    i <= self.state.lists@.len(),
                    row_views(rows@) == list_rows(v, i as nat),
                decreases self.state.lists.len() - i,
            {
                let list = &self.state.lists[i];
                let done = list.is_completed();
                let badge = if done {
                    "\u{2713}"
                } else {
                    "pending"
                };
                let color = if done {
                    Some(self.theme.completed_task_fg)
                } else {
                    None
                };
                let line = marked_line(i == self.state.selected_list, badge, list.name());
                let ghost before = row_views(rows@);
                assert(before.len() == i);
                assert(rows@.len() == i);
                rows.push(Row { text: line, color });
                assert(rows@.len() == i + 1);
                assert(row_views(rows@).len() == i + 1);
                assert(v.lists[i as int] == self.state.lists@[i as int]@);
                assert(row_views(rows@)[i as int] == list_row(v, i as int));
                assert forall|k: int| 0 <= k < i implies row_views(rows@)[k] == before[k] by {}
                assert forall|k: int| 0 <= k < i + 1 implies row_views(rows@)[k] == list_rows(v, (i + 1) as nat)[k] by {
                    if k < i {
                        assert(before[k] == list_rows(v, i as nat)[k]);
                    }
                }
                assert(row_views(rows@) =~= list_rows(v, (i + 1) as nat));
                i = i + 1;
            }
        }
        let selected = if self.state.lists.len() == 0 {
            None
        } else {
            Some(self.state.selected_list)
        };
        let active = self.state.mode == Mode::Lists;
        Panel {
            title: text("Task Lists"),
            rows,
            border: Some(self.panel_color(active)),
            selected,
        }
    }

    /// The lines of the open list's tasks.
    fn task_rows(&self) -> (r: Vec<Row>)
        requires
            self.wf(),
        ensures
            row_views(r@) == task_rows_of(self.view(), self.view().tasks.len()),
    {
        let ghost v = self.view();
        let mut rows: Vec<Row> = Vec::new();
        let mut i: usize = 0;
        while i < self.state.tasks.len()
            invariant
                v == self.view(),
                i <= self.state.tasks@.len(),
                row_views(rows@) == task_rows_of(v, i as nat),
            decreases self.state.tasks.len() - i,
        {
            let task = &self.state.tasks[i];
            let done = task.is_completed();
            let badge = if done {
                "\u{2713}"
            } else {
                "\u{2610}"
            };
            let color = if done {
                Some(self.theme.completed_task_fg)
            } else {
                None
            };
            let line = marked_line(i == self.state.selected_task, badge, task.title());
            let ghost before = row_views(rows@);
            assert(before.len() == i);
            rows.push(Row { text: line, color });
            assert(row_views(rows@).len() == i + 1);
            assert(v.tasks[i as int] == self.state.tasks@[i as int]@);
            assert(row_views(rows@)[i as int] == task_row(v, i as int));
            assert forall|k: int| 0 <= k < i implies row_views(rows@)[k] == before[k] by {}
            assert forall|k: int| 0 <= k < i + 1 implies row_views(rows@)[k] == task_rows_of(v, (i + 1) as nat)[k] by {
                if k < i {
                    assert(before[k] == task_rows_of(v, i as nat)[k]);
                }
            }
            assert(row_views(rows@) =~= task_rows_of(v, (i + 1) as nat));
            i = i + 1;
        }
        rows
    }

    fn help_panel_rows(&self) -> (r: Vec<Row>)
        ensures
            row_views(r@) == help_rows(self.view().mode),
    {
        let mut rows: Vec<Row> = Vec::new();
        match self.state.mode {
            Mode::Lists => {
                rows.push(plain_row("List mode"));
                rows.push(plain_row("n new list"));
                rows.push(plain_row("r rename list"));
                rows.push(plain_row("d delete list"));
                rows.push(plain_row("Enter/Right/Tab open tasks"));
                rows.push(plain_row("Up/Down select list"));
                rows.push(plain_row("Esc close help"));
                rows.push(plain_row("q quit"));
            },
            Mode::Tasks(_) => {
                rows.push(plain_row("Task mode"));
                rows.push(plain_row("n new task"));
                rows.push(plain_row("r rename task"));
                rows.push(plain_row("d delete task"));
                rows.push(plain_row("Space toggle complete"));
                rows.push(plain_row("Up/Down select task"));
                rows.push(plain_row("Esc/Left/Tab return to lists"));
                rows.push(plain_row("q quit"));
            },
        }
        assert(row_views(rows@) =~= help_rows(self.view().mode));
        rows
    }

    /// The right-hand panel: help, the text being edited, the question being
    /// confirmed, or the tasks of the open list.
    pub fn tasks_panel(&self) -> (r: Panel)
        requires
            self.wf(),
        ensures
            r@ == tasks_panel_of(self.view()),
    {
        match self.state.interaction {
            Interaction::Help => Panel {
                title: text("Help"),
                rows: self.help_panel_rows(),
                border: None,
                selected: None,
            },
            Interaction::Editing(a) => {
                let mut line = match a {
                    EditAction::CreateList => text("New list"),
                    EditAction::RenameList(_) => text("Rename list"),
                    EditAction::CreateTask(_) => text("New task"),
                    EditAction::RenameTask { .. } => text("Rename task"),
                };
                line.append(": ");
                line.append(self.state.input.as_str());
                let mut rows: Vec<Row> = Vec::new();
                rows.push(Row { text: line, color: None });
                rows.push(plain_row("Enter submit"));
                rows.push(plain_row("Esc cancel"));
                let r = Panel { title: text("Edit"), rows, border: None, selected: None };
                assert(r@.rows =~= tasks_panel_of(self.view()).rows);
                r
            },
            Interaction::Confirming(a) => {
                let prompt = match a {
                    ConfirmAction::DeleteList(_) => plain_row("Delete list? y/n"),
                    ConfirmAction::DeleteTask { .. } => plain_row("Delete task? y/n"),
                };
                let mut rows: Vec<Row> = Vec::new();
                rows.push(prompt);
                rows.push(plain_row("Esc cancel"));
                let r = Panel { title: text("Confirm"), rows, border: None, selected: None };
                assert(r@.rows =~= tasks_panel_of(self.view()).rows);
                r
            },
            Interaction::Idle => {
                let rows = match self.state.mode {
                    Mode::Lists => {
                        let mut rows: Vec<Row> = Vec::new();
                        rows.push(plain_row("No task list open"));
                        assert(row_views(rows@) =~= seq![plain("No task list open"@)]);
                        rows
                    },
                    Mode::Tasks(_) => {
                        if self.state.tasks.len() == 0 {
                            let mut rows: Vec<Row> = Vec::new();
                            rows.push(plain_row("No tasks"));
                            assert(row_views(rows@) =~= seq![plain("No tasks"@)]);
                            rows
                        } else {
                            self.task_rows()
                        }
                    },
                };
                let in_tasks = self.state.mode != Mode::Lists;
                let selected = if in_tasks && self.state.tasks.len() > 0 {
                    Some(self.state.selected_task)
                } else {
                    None
                };
                Panel { title: text("Tasks"), rows, border: Some(self.panel_color(in_tasks)), selected }
            },
        }
    }

    /// The status line: the last message, or else a description of the
    /// selection.
    pub fn status_text(&self) -> (r: String)
        requires
            self.wf(),
        ensures
            r@ == status_text_of(self.view()),
    {
        if self.state.status.as_str().is_empty() {
            self.selection_status()
        } else {
            self.state.status.clone()
        }
    }

    /// The bar of keys that work right now.
    pub fn hotkey_text(&self) -> (r: String)
        ensures
            r@ == hotkeys_of(self.view()),
    {
        match self.state.interaction {
            Interaction::Idle => match self.state.mode {
                Mode::Lists => text("n: new  r: rename  d: delete  Enter/Tab: open tasks  q: quit"),
                Mode::Tasks(_) => text(
                    "n: new  r: rename  d: delete  Space: toggle  Esc/Tab: lists  q: quit",
                ),
            },
            Interaction::Help => text("?: close help  q: quit"),
            Interaction::Editing(_) => text("Enter: submit  Esc: cancel"),
            Interaction::Confirming(_) => text("y: confirm  n/Esc: cancel"),
        }
    }
}

} // verus!
