//! The `TaskList` aggregate root and its invariants.
use vstd::prelude::*;

use crate::domain::task::{Task, TaskError, TaskView};
use crate::text::{is_blank, is_blank_str};

verus! {

/// Stable identity of a task list. The on-disk file name derives from this.
#[derive(Debug, PartialEq, Eq, Hash)]
pub struct TaskListId(pub String);

impl View for TaskListId {
    type V = Seq<char>;

    open spec fn view(&self) -> Seq<char> {
        self.0@
    }
}

impl Clone for TaskListId {
    fn clone(&self) -> (r: Self)
        ensures
            r == *self,
    {
        TaskListId(self.0.clone())
    }
}

impl TaskListId {
    pub fn as_str(&self) -> (r: &str)
        ensures
            r@ == self@,
    {
        self.0.as_str()
    }
}

/// Errors raised by the task-list domain invariants.
#[derive(Debug, Clone, Copy, PartialEq, Eq, Structural)]
pub enum DomainError {
    /// A list name was empty or whitespace-only.
    EmptyName,
}

/// What a task list is: its id, its name and its tasks in insertion order.
pub struct TaskListView {
    pub id: Seq<char>,
    pub name: Seq<char>,
    pub tasks: Seq<TaskView>,
}

/// No two tasks share a title.
pub open spec fn titles_distinct(tasks: Seq<TaskView>) -> bool {
    forall|i: int, j: int|
        0 <= i < tasks.len() && 0 <= j < tasks.len() && i != j ==> #[trigger] tasks[i].title
            != #[trigger] tasks[j].title
}

/// Every title is non-blank and no two tasks share one.
pub open spec fn valid_tasks(tasks: Seq<TaskView>) -> bool {
    &&& titles_distinct(tasks)
    &&& forall|i: int| 0 <= i < tasks.len() ==> !is_blank(#[trigger] tasks[i].title)
}

/// The invariant of a task list: a non-blank name and valid tasks.
pub open spec fn valid_list(l: TaskListView) -> bool {
    !is_blank(l.name) && valid_tasks(l.tasks)
}

/// Some task is titled `t`.
pub open spec fn has_title(tasks: Seq<TaskView>, t: Seq<char>) -> bool {
    exists|i: int| 0 <= i < tasks.len() && #[trigger] tasks[i].title == t
}

/// The position of the task titled `t` (meaningful when `has_title`).
pub open spec fn title_index(tasks: Seq<TaskView>, t: Seq<char>) -> int {
    choose|i: int| 0 <= i < tasks.len() && #[trigger] tasks[i].title == t
}

/// `l` with its list of tasks replaced.
pub open spec fn with_tasks(l: TaskListView, tasks: Seq<TaskView>) -> TaskListView {
    TaskListView { id: l.id, name: l.name, tasks }
}

/// Adding a task titled `t`: blank titles and titles already present are
/// refused; otherwise a new incomplete task goes to the end.
pub open spec fn spec_add_task(l: TaskListView, t: Seq<char>) -> Result<TaskListView, TaskError> {
    if is_blank(t) {
        Err(TaskError::EmptyTitle)
    } else if has_title(l.tasks, t) {
        Err(TaskError::DuplicateTitle)
    } else {
        Ok(with_tasks(l, l.tasks.push(TaskView { title: t, completed: false })))
    }
}

/// Renaming the task titled `old_title` to `new_title`, in place. Renaming a
/// task to its own title is allowed and changes nothing.
pub open spec fn spec_rename_task(
    l: TaskListView,
    old_title: Seq<char>,
    new_title: Seq<char>,
) -> Result<TaskListView, TaskError> {
    if is_blank(new_title) {
        Err(TaskError::EmptyTitle)
    } else if !has_title(l.tasks, old_title) {
        Err(TaskError::NotFound)
    } else if has_title(l.tasks, new_title) && new_title != old_title {
        Err(TaskError::DuplicateTitle)
    } else {
        let i = title_index(l.tasks, old_title);
        Ok(
            with_tasks(
                l,
                l.tasks.update(i, TaskView { title: new_title, completed: l.tasks[i].completed }),
            ),
        )
    }
}

/// Removing the task titled `t`.
pub open spec fn spec_remove_task(l: TaskListView, t: Seq<char>) -> Result<TaskListView, TaskError> {
    if !has_title(l.tasks, t) {
        Err(TaskError::NotFound)
    } else {
        Ok(with_tasks(l, l.tasks.remove(title_index(l.tasks, t))))
    }
}

/// Setting the completion of the task titled `t` to `done`.
pub open spec fn spec_set_completed(l: TaskListView, t: Seq<char>, done: bool) -> Result<
    TaskListView,
    TaskError,
> {
    if !has_title(l.tasks, t) {
        Err(TaskError::NotFound)
    } else {
        let i = title_index(l.tasks, t);
        Ok(with_tasks(l, l.tasks.update(i, TaskView { title: t, completed: done })))
    }
}

/// A list is completed when it has at least one task and every task is done.
pub open spec fn list_completed(l: TaskListView) -> bool {
    l.tasks.len() > 0 && forall|i: int| 0 <= i < l.tasks.len() ==> #[trigger] l.tasks[i].completed
}

/// `r` and the list after a command agree with the command's `outcome` on
/// the list before: on success the list is the outcome, on failure the error
/// is the outcome's and the list is unchanged.
pub open spec fn command_done(
    outcome: Result<TaskListView, TaskError>,
    before: TaskListView,
    after: TaskListView,
    r: Result<(), TaskError>,
) -> bool {
    match outcome {
        Ok(l) => r is Ok && after == l,
        Err(e) => r == Err::<(), TaskError>(e) && after == before,
    }
}

/// The views of a sequence of tasks.
pub open spec fn task_views(tasks: Seq<Task>) -> Seq<TaskView> {
    tasks.map_values(|t: Task| t@)
}

/// A named collection of tasks, and the aggregate root that owns them.
/// Invariants: the name is not blank; task titles are not blank and are
/// unique within the list. Uniqueness of list names across lists is a
/// use-case rule, not kept here.
#[derive(Debug, PartialEq, Eq)]
pub struct TaskList {
    id: TaskListId,
    name: String,
    tasks: Vec<Task>,
}

impl View for TaskList {
    type V = TaskListView;

    closed spec fn view(&self) -> TaskListView {
        TaskListView { id: self.id@, name: self.name@, tasks: task_views(self.tasks@) }
    }
}

impl Clone for TaskList {
    fn clone(&self) -> (r: Self)
        ensures
            r@ == self@,
    {
        proof {
            use_type_invariant(self);
        }
        let tasks = self.tasks.clone();
        assert forall|i: int| 0 <= i < tasks@.len() implies tasks@[i] == self.tasks@[i] by {
            assert(cloned::<Task>(self.tasks[i], tasks[i]));
        }
        assert(tasks@ =~= self.tasks@);
        TaskList { id: self.id.clone(), name: self.name.clone(), tasks }
    }
}

impl TaskList {
    #[verifier::type_invariant]
    spec fn invariant_holds(self) -> bool {
        valid_list(self@)
    }

    /// Build an empty task list, enforcing the non-blank name invariant.
    pub fn new(id: TaskListId, name: &str) -> (r: Result<Self, DomainError>)
        ensures
            match r {
                Ok(l) => !is_blank(name@) && l@ == (TaskListView {
                    id: id@,
                    name: name@,
                    tasks: Seq::empty(),
                }),
                Err(e) => is_blank(name@) && e == DomainError::EmptyName,
            },
    {
        if is_blank_str(name) {
            return Err(DomainError::EmptyName);
        }
        let tasks: Vec<Task> = Vec::new();
        assert(task_views(tasks@) == Seq::<TaskView>::empty());
        Ok(TaskList { id, name: name.to_owned(), tasks })
    }

    pub fn id(&self) -> (r: &TaskListId)
        ensures
            r@ == self@.id,
            valid_list(self@),
    {
        proof {
            use_type_invariant(self);
        }
        &self.id
    }

    pub fn name(&self) -> (r: &str)
        ensures
            r@ == self@.name,
            valid_list(self@),
    {
        proof {
            use_type_invariant(self);
        }
        self.name.as_str()
    }

    /// Change the name, re-enforcing the non-blank invariant.
    pub fn rename(&mut self, name: &str) -> (r: Result<(), DomainError>)
        ensures
            is_blank(name@) ==> r == Err::<(), DomainError>(DomainError::EmptyName) && final(self)@
                == old(self)@,
            !is_blank(name@) ==> r is Ok && final(self)@ == (TaskListView {
                id: old(self)@.id,
                name: name@,
                tasks: old(self)@.tasks,
            }),
    {
        proof {
            use_type_invariant(&*self);
        }
        if is_blank_str(name) {
            return Err(DomainError::EmptyName);
        }
        self.name = name.to_owned();
        Ok(())
    }

    /// The list's tasks, in insertion order.
    pub fn tasks(&self) -> (r: &[Task])
        ensures
            task_views(r@) == self@.tasks,
            valid_list(self@),
    {
        proof {
            use_type_invariant(self);
        }
        self.tasks.as_slice()
    }

    /// The position of the task titled `t`, if there is one.
    fn position_of(&self, t: &String) -> (r: Option<usize>)
        ensures
            valid_list(self@),
            match r {
                Some(i) => i < self@.tasks.len() && self@.tasks[i as int].title == t@
                    && title_index(self@.tasks, t@) == i,
                None => !has_title(self@.tasks, t@),
            },
    {
        proof {
            use_type_invariant(self);
        }
        let mut i: usize = 0;
        while i < self.tasks.len()
            invariant
                i <= self.tasks@.len(),
                valid_list(self@),
                self@.tasks == task_views(self.tasks@),
                forall|j: int| 0 <= j < i ==> #[trigger] self@.tasks[j].title != t@,
            decreases self.tasks.len() - i,
        {
            if self.tasks[i].has_title(t) {
                proof {
                    let k = title_index(self@.tasks, t@);
                    assert(self@.tasks[i as int].title == t@);
                    assert(0 <= k < self@.tasks.len() && self@.tasks[k].title == t@);
                }
                return Some(i);
            }
            i = i + 1;
        }
        None
    }

    /// Add a task, enforcing a non-blank title unique within this list.
    pub fn add_task(&mut self, title: &str) -> (r: Result<(), TaskError>)
        ensures
            valid_list(final(self)@),
            command_done(spec_add_task(old(self)@, title@), old(self)@, final(self)@, r),
    {
        proof {
            use_type_invariant(&*self);
        }
        let task = match Task::new(title) {
            Ok(t) => t,
            Err(e) => return Err(e),
        };
        let t = title.to_owned();
        if self.position_of(&t).is_some() {
            return Err(TaskError::DuplicateTitle);
        }
        let ghost before = self@;
        let mut tasks: Vec<Task> = Vec::new();
        std::mem::swap(&mut tasks, &mut self.tasks);
        tasks.push(task);
        assert(task_views(tasks@) == before.tasks.push(TaskView { title: title@, completed: false }));
        self.tasks = tasks;
        Ok(())
    }

    /// Rename the task titled `old_title`, keeping titles non-blank and
    /// unique. Renaming a task to its own current title is allowed.
    pub fn rename_task(&mut self, old_title: &str, new_title: &str) -> (r: Result<(), TaskError>)
        ensures
            valid_list(final(self)@),
            command_done(
                spec_rename_task(old(self)@, old_title@, new_title@),
                old(self)@,
                final(self)@,
                r,
            ),
    {
        proof {
            use_type_invariant(&*self);
        }
        if is_blank_str(new_title) {
            return Err(TaskError::EmptyTitle);
        }
        let old_t = old_title.to_owned();
        let new_t = new_title.to_owned();
        let idx = match self.position_of(&old_t) {
            Some(i) => i,
            None => return Err(TaskError::NotFound),
        };
        if old_t != new_t {
            if self.position_of(&new_t).is_some() {
                return Err(TaskError::DuplicateTitle);
            }
        } else {
            proof {
                assert(old_title@ == new_title@);
            }
        }
        let ghost before = self@;
        let mut tasks: Vec<Task> = Vec::new();
        std::mem::swap(&mut tasks, &mut self.tasks);
        let done = tasks[idx].is_completed();
        tasks.set(idx, Task::from_parts(new_t, done));
        let ghost updated = before.tasks.update(
            idx as int,
            TaskView { title: new_title@, completed: before.tasks[idx as int].completed },
        );
        assert(task_views(tasks@) == updated);
        assert(valid_tasks(updated)) by {
            assert forall|i: int, j: int|
                0 <= i < updated.len() && 0 <= j < updated.len() && i != j implies #[trigger] updated[i].title
                    != #[trigger] updated[j].title by {
                if i != idx && j != idx {
                    assert(before.tasks[i].title != before.tasks[j].title);
                } else if i == idx {
                    if new_title@ == old_title@ {
                        assert(before.tasks[idx as int].title != before.tasks[j].title);
                    } else {
                        assert(updated[j].title == before.tasks[j].title);
                    }
                } else {
                    if new_title@ == old_title@ {
                        assert(before.tasks[idx as int].title != before.tasks[i].title);
                    } else {
                        assert(updated[i].title == before.tasks[i].title);
                    }
                }
            }
        }
        self.tasks = tasks;
        Ok(())
    }

    /// Remove the task titled `title`. Reports NotFound if no such task exists.
    pub fn remove_task(&mut self, title: &str) -> (r: Result<(), TaskError>)
        ensures
            valid_list(final(self)@),
            command_done(spec_remove_task(old(self)@, title@), old(self)@, final(self)@, r),
    {
        proof {
            use_type_invariant(&*self);
        }
        let t = title.to_owned();
        let idx = match self.position_of(&t) {
            Some(i) => i,
            None => return Err(TaskError::NotFound),
        };
        let ghost before = self@;
        let mut tasks: Vec<Task> = Vec::new();
        std::mem::swap(&mut tasks, &mut self.tasks);
        let ghost old_tasks = tasks@;
        tasks.remove(idx);
        let ghost removed = before.tasks.remove(idx as int);
        assert(task_views(tasks@) == removed);
        assert(valid_tasks(removed)) by {
            assert forall|i: int, j: int|
                0 <= i < removed.len() && 0 <= j < removed.len() && i != j implies #[trigger] removed[i].title
                    != #[trigger] removed[j].title by {
                let i2 = if i < idx { i } else { i + 1 };
                let j2 = if j < idx { j } else { j + 1 };
                assert(removed[i] == before.tasks[i2]);
                assert(removed[j] == before.tasks[j2]);
            }
            assert forall|i: int| 0 <= i < removed.len() implies !is_blank(
                #[trigger] removed[i].title,
            ) by {
                let i2 = if i < idx { i } else { i + 1 };
                assert(removed[i] == before.tasks[i2]);
            }
        }
        self.tasks = tasks;
        Ok(())
    }

    /// Set the completion of the task titled `title`.
    fn set_completed(&mut self, title: &str, done: bool) -> (r: Result<(), TaskError>)
        ensures
            valid_list(final(self)@),
            command_done(spec_set_completed(old(self)@, title@, done), old(self)@, final(self)@, r),
    {
        proof {
            use_type_invariant(&*self);
        }
        let t = title.to_owned();
        let idx = match self.position_of(&t) {
            Some(i) => i,
            None => return Err(TaskError::NotFound),
        };
        let ghost before = self@;
        let mut tasks: Vec<Task> = Vec::new();
        std::mem::swap(&mut tasks, &mut self.tasks);
        tasks.set(idx, Task::from_parts(t, done));
        let ghost updated = before.tasks.update(
            idx as int,
            TaskView { title: title@, completed: done },
        );
        assert(task_views(tasks@) == updated);
        assert(valid_tasks(updated)) by {
            assert forall|i: int, j: int|
                0 <= i < updated.len() && 0 <= j < updated.len() && i != j implies #[trigger] updated[i].title
                    != #[trigger] updated[j].title by {
                assert(updated[i].title == before.tasks[i].title);
                assert(updated[j].title == before.tasks[j].title);
            }
        }
        self.tasks = tasks;
        Ok(())
    }

    /// Mark the task titled `title` completed (idempotent).
    pub fn complete_task(&mut self, title: &str) -> (r: Result<(), TaskError>)
        ensures
            valid_list(final(self)@),
            command_done(spec_set_completed(old(self)@, title@, true), old(self)@, final(self)@, r),
    {
        self.set_completed(title, true)
    }

    /// Mark the task titled `title` incomplete (idempotent). Reports NotFound if absent.
    pub fn uncomplete_task(&mut self, title: &str) -> (r: Result<(), TaskError>)
        ensures
            valid_list(final(self)@),
            command_done(
                spec_set_completed(old(self)@, title@, false),
                old(self)@,
                final(self)@,
                r,
            ),
    {
        self.set_completed(title, false)
    }

    /// A list is completed iff it has at least one task and every task is
    /// completed. An empty list is *not* completed.
    pub fn is_completed(&self) -> (r: bool)
        ensures
            r == list_completed(self@),
    {
        if self.tasks.len() == 0 {
            return false;
        }
        let mut i: usize = 0;
        while i < self.tasks.len()
            invariant
                i <= self.tasks@.len(),
                self@.tasks == task_views(self.tasks@),
                forall|j: int| 0 <= j < i ==> #[trigger] self@.tasks[j].completed,
            decreases self.tasks.len() - i,
        {
            if !self.tasks[i].is_completed() {
                assert(self@.tasks[i as int] == self.tasks@[i as int]@);
                return false;
            }
            i = i + 1;
        }
        true
    }
}

/// In a list whose titles are distinct, the position of a present title is
/// the one position that holds it.
pub proof fn lemma_title_index(tasks: Seq<TaskView>, t: Seq<char>, i: int)
    requires
        titles_distinct(tasks),
        0 <= i < tasks.len(),
        tasks[i].title == t,
    ensures
        title_index(tasks, t) == i,
{
    let k = title_index(tasks, t);
    assert(0 <= k < tasks.len() && tasks[k].title == t);
}

/// Every accepted operation keeps a valid list valid: titles stay non-blank
/// and distinct.
pub proof fn law_operations_keep_list_valid(
    l: TaskListView,
    a: Seq<char>,
    b: Seq<char>,
    done: bool,
)
    requires
        valid_list(l),
    ensures
        spec_add_task(l, a) matches Ok(l2) ==> valid_list(l2),
        spec_rename_task(l, a, b) matches Ok(l2) ==> valid_list(l2),
        spec_remove_task(l, a) matches Ok(l2) ==> valid_list(l2),
        spec_set_completed(l, a, done) matches Ok(l2) ==> valid_list(l2),
{
    if let Ok(l2) = spec_add_task(l, a) {
        let n = l.tasks.len();
        assert forall|i: int, j: int|
            0 <= i < l2.tasks.len() && 0 <= j < l2.tasks.len() && i != j implies #[trigger] l2.tasks[i].title
                != #[trigger] l2.tasks[j].title by {
            if i < n && j < n {
                assert(l.tasks[i].title != l.tasks[j].title);
            } else if i < n {
                assert(l2.tasks[i] == l.tasks[i]);
            } else {
                assert(l2.tasks[j] == l.tasks[j]);
            }
        }
        assert forall|i: int| 0 <= i < l2.tasks.len() implies !is_blank(#[trigger] l2.tasks[i].title) by {
            if i < n {
                assert(l2.tasks[i] == l.tasks[i]);
            }
        }
    }
    if let Ok(l2) = spec_rename_task(l, a, b) {
        let k = title_index(l.tasks, a);
        assert forall|i: int, j: int|
            0 <= i < l2.tasks.len() && 0 <= j < l2.tasks.len() && i != j implies #[trigger] l2.tasks[i].title
                != #[trigger] l2.tasks[j].title by {
            if i != k && j != k {
                assert(l.tasks[i].title != l.tasks[j].title);
            } else if i == k {
                if b == a {
                    assert(l.tasks[k].title != l.tasks[j].title);
                } else {
                    assert(l2.tasks[j].title == l.tasks[j].title);
                }
            } else {
                if b == a {
                    assert(l.tasks[k].title != l.tasks[i].title);
                } else {
                    assert(l2.tasks[i].title == l.tasks[i].title);
                }
            }
        }
    }
    if let Ok(l2) = spec_remove_task(l, a) {
        let k = title_index(l.tasks, a);
        assert forall|i: int, j: int|
            0 <= i < l2.tasks.len() && 0 <= j < l2.tasks.len() && i != j implies #[trigger] l2.tasks[i].title
                != #[trigger] l2.tasks[j].title by {
            let i2 = if i < k { i } else { i + 1 };
            let j2 = if j < k { j } else { j + 1 };
            assert(l2.tasks[i] == l.tasks[i2]);
            assert(l2.tasks[j] == l.tasks[j2]);
        }
        assert forall|i: int| 0 <= i < l2.tasks.len() implies !is_blank(#[trigger] l2.tasks[i].title) by {
            let i2 = if i < k { i } else { i + 1 };
            assert(l2.tasks[i] == l.tasks[i2]);
        }
    }
    if let Ok(l2) = spec_set_completed(l, a, done) {
        let k = title_index(l.tasks, a);
        assert forall|i: int, j: int|
            0 <= i < l2.tasks.len() && 0 <= j < l2.tasks.len() && i != j implies #[trigger] l2.tasks[i].title
                != #[trigger] l2.tasks[j].title by {
            assert(l2.tasks[i].title == l.tasks[i].title);
            assert(l2.tasks[j].title == l.tasks[j].title);
        }
    }
}

/// Completing a task is idempotent: completing it a second time succeeds
/// and changes nothing. The same holds of marking it incomplete.
pub proof fn law_set_completed_idempotent(l: TaskListView, t: Seq<char>, done: bool)
    requires
        valid_list(l),
        spec_set_completed(l, t, done) is Ok,
    ensures
        spec_set_completed(spec_set_completed(l, t, done)->Ok_0, t, done) == spec_set_completed(
            l,
            t,
            done,
        ),
{
    let k = title_index(l.tasks, t);
    let l2 = spec_set_completed(l, t, done)->Ok_0;
    law_operations_keep_list_valid(l, t, t, done);
    assert(l2.tasks[k].title == t);
    lemma_title_index(l2.tasks, t, k);
    assert(l2.tasks.update(k, TaskView { title: t, completed: done }) =~= l2.tasks);
}

/// Marking a task incomplete undoes completing it, and completing it undoes
/// marking it incomplete.
pub proof fn law_uncomplete_undoes_complete(l: TaskListView, t: Seq<char>, done: bool)
    requires
        valid_list(l),
        has_title(l.tasks, t),
        l.tasks[title_index(l.tasks, t)].completed == !done,
    ensures
        spec_set_completed(spec_set_completed(l, t, done)->Ok_0, t, !done) == Ok::<
            TaskListView,
            TaskError,
        >(l),
{
    let k = title_index(l.tasks, t);
    let l2 = spec_set_completed(l, t, done)->Ok_0;
    assert(l2.tasks[k].title == t);
    law_operations_keep_list_valid(l, t, t, done);
    lemma_title_index(l2.tasks, t, k);
    assert(l2.tasks.update(k, TaskView { title: t, completed: !done }) =~= l.tasks);
}

/// Removing a task that was just added gives back the list as it was.
pub proof fn law_remove_undoes_add(l: TaskListView, t: Seq<char>)
    requires
        valid_list(l),
        spec_add_task(l, t) is Ok,
    ensures
        spec_remove_task(spec_add_task(l, t)->Ok_0, t) == Ok::<TaskListView, TaskError>(l),
{
    let l2 = spec_add_task(l, t)->Ok_0;
    let n = l.tasks.len() as int;
    law_operations_keep_list_valid(l, t, t, true);
    assert(l2.tasks[n].title == t);
    lemma_title_index(l2.tasks, t, n);
    assert(l2.tasks.remove(n) =~= l.tasks);
}

/// Renaming a task to its own title is allowed and changes nothing.
pub proof fn law_rename_to_same_title_is_noop(l: TaskListView, t: Seq<char>)
    requires
        valid_list(l),
        has_title(l.tasks, t),
    ensures
        spec_rename_task(l, t, t) == Ok::<TaskListView, TaskError>(l),
{
    let k = title_index(l.tasks, t);
    assert(!is_blank(l.tasks[k].title));
    assert(l.tasks.update(k, TaskView { title: t, completed: l.tasks[k].completed }) =~= l.tasks);
}

/// Renaming a task and then renaming it back gives back the list as it was.
pub proof fn law_rename_back_restores(l: TaskListView, a: Seq<char>, b: Seq<char>)
    requires
        valid_list(l),
        spec_rename_task(l, a, b) is Ok,
    ensures
        spec_rename_task(spec_rename_task(l, a, b)->Ok_0, b, a) == Ok::<TaskListView, TaskError>(l),
{
    let k = title_index(l.tasks, a);
    let l2 = spec_rename_task(l, a, b)->Ok_0;
    law_operations_keep_list_valid(l, a, b, true);
    assert(l2.tasks[k].title == b);
    lemma_title_index(l2.tasks, b, k);
    assert(!is_blank(l.tasks[k].title));
    if a != b {
        assert forall|i: int| 0 <= i < l2.tasks.len() implies #[trigger] l2.tasks[i].title != a by {
            if i != k {
                assert(l.tasks[i].title != l.tasks[k].title);
            }
        }
    }
    assert(l2.tasks.update(k, TaskView { title: a, completed: l2.tasks[k].completed }) =~= l.tasks);
}

/// A list with a task that is not done is not completed; in particular a
/// task just added keeps its list from being completed, and an empty list is
/// not completed.
pub proof fn law_added_task_uncompletes_list(l: TaskListView, t: Seq<char>)
    requires
        spec_add_task(l, t) is Ok,
    ensures
        !list_completed(spec_add_task(l, t)->Ok_0),
        !list_completed(with_tasks(l, Seq::empty())),
{
    let l2 = spec_add_task(l, t)->Ok_0;
    assert(!l2.tasks[l.tasks.len() as int].completed);
}

} // verus!
