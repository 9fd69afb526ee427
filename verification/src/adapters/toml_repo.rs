//! The on-disk shape of a task list and its translation to and from the
//! domain. Reading and writing the files is done at the program's edge; what
//! is read is rebuilt here through the aggregate, so stored data re-enforces
//! the invariants.
use vstd::prelude::*;

use crate::application::ports::{RepoError, RepoResult};
use crate::domain::task::{TaskError, TaskView};
use crate::domain::task_list::{
    has_title, lemma_title_index, task_views, valid_list, valid_tasks, TaskList, TaskListId, TaskListView,
};
use crate::text::is_blank;

verus! {

/// A stored task.
#[derive(Debug, PartialEq, Eq)]
pub struct TaskDto {
    pub title: String,
    pub completed: bool,
}

/// A stored task list. Files written before tasks existed have no tasks.
#[derive(Debug, PartialEq, Eq)]
pub struct TaskListDto {
    pub id: String,
    pub name: String,
    pub tasks: Vec<TaskDto>,
}

impl View for TaskDto {
    type V = TaskView;

    open spec fn view(&self) -> TaskView {
        TaskView { title: self.title@, completed: self.completed }
    }
}

impl View for TaskListDto {
    type V = TaskListView;

    open spec fn view(&self) -> TaskListView {
        TaskListView {
            id: self.id@,
            name: self.name@,
            tasks: self.tasks@.map_values(|t: TaskDto| t@),
        }
    }
}

/// Rebuilding stored tasks one by one through the aggregate: the first
/// blank or repeated title stops it with that error.
pub open spec fn rebuild_tasks(tasks: Seq<TaskView>) -> Result<Seq<TaskView>, TaskError>
    decreases tasks.len(),
{
    if tasks.len() == 0 {
        Ok(Seq::empty())
    } else {
        match rebuild_tasks(tasks.drop_last()) {
            Err(e) => Err(e),
            Ok(prev) => {
                let t = tasks.last();
                if is_blank(t.title) {
                    Err(TaskError::EmptyTitle)
                } else if has_title(prev, t.title) {
                    Err(TaskError::DuplicateTitle)
                } else {
                    Ok(prev.push(t))
                }
            },
        }
    }
}

/// The message of a stored list that the aggregate refuses.
pub open spec fn invalid_list_message() -> Seq<char> {
    "invalid stored task list: EmptyName"@
}

/// The message of a stored task that the aggregate refuses.
pub open spec fn invalid_task_message(e: TaskError) -> Seq<char> {
    match e {
        TaskError::EmptyTitle => "invalid stored task: EmptyTitle"@,
        TaskError::DuplicateTitle => "invalid stored task: DuplicateTitle"@,
        TaskError::NotFound => "invalid stored task: NotFound"@,
    }
}

/// What rebuilding a stored list gives: the list it describes, or the
/// message of the first thing the aggregate refuses.
pub open spec fn rebuild_list(d: TaskListView) -> Result<TaskListView, Seq<char>> {
    if is_blank(d.name) {
        Err(invalid_list_message())
    } else {
        match rebuild_tasks(d.tasks) {
            Err(e) => Err(invalid_task_message(e)),
            Ok(tasks) => Ok(TaskListView { id: d.id, name: d.name, tasks }),
        }
    }
}

proof fn lemma_rebuild_prefix(tasks: Seq<TaskView>, i: int)
    requires
        0 <= i < tasks.len(),
    ensures
        tasks.take(i + 1).drop_last() == tasks.take(i),
        tasks.take(i + 1).last() == tasks[i],
{
    assert(tasks.take(i + 1).drop_last() =~= tasks.take(i));
}

/// `text` as an error message.
fn message(text: &str) -> (r: RepoError)
    ensures
        r.0@ == text@,
{
    RepoError(text.to_owned())
}

fn task_error_message(e: TaskError) -> (r: RepoError)
    ensures
        r.0@ == invalid_task_message(e),
{
    match e {
        TaskError::EmptyTitle => message("invalid stored task: EmptyTitle"),
        TaskError::DuplicateTitle => message("invalid stored task: DuplicateTitle"),
        TaskError::NotFound => message("invalid stored task: NotFound"),
    }
}

impl TaskListDto {
    /// The stored shape of `list`.
    pub fn from_domain(list: &TaskList) -> (r: Self)
        ensures
            r@ == list@,
    {
        let tasks = list.tasks();
        let mut out: Vec<TaskDto> = Vec::new();
        let mut i: usize = 0;
        while i < tasks.len()
            invariant
                i <= tasks@.len(),
                task_views(tasks@) == list@.tasks,
                out@.map_values(|t: TaskDto| t@) == list@.tasks.take(i as int),
            decreases tasks.len() - i,
        {
            let t = &tasks[i];
            let ghost before = out@;
            out.push(TaskDto { title: t.title().to_owned(), completed: t.is_completed() });
            assert(out@.map_values(|t: TaskDto| t@) == before.map_values(|t: TaskDto| t@).push(
                tasks@[i as int]@,
            ));
            assert(list@.tasks.take(i + 1) == list@.tasks.take(i as int).push(
                list@.tasks[i as int],
            ));
            i = i + 1;
        }
        assert(list@.tasks.take(tasks@.len() as int) == list@.tasks);
        TaskListDto { id: list.id().as_str().to_owned(), name: list.name().to_owned(), tasks: out }
    }

    /// Rebuild the list through the aggregate, so that what was stored must
    /// meet the invariants again.
    pub fn into_domain(self) -> (r: RepoResult<TaskList>)
        ensures
            match rebuild_list(self@) {
                Ok(v) => r matches Ok(l) && l@ == v,
                Err(m) => r matches Err(e) && e.0@ == m,
            },
    {
        let ghost d = self@;
        let mut list = match TaskList::new(TaskListId(self.id), self.name.as_str()) {
            Ok(l) => l,
            Err(_) => return Err(message("invalid stored task list: EmptyName")),
        };
        let tasks = self.tasks;
        let mut i: usize = 0;
        while i < tasks.len()
            invariant
                i <= tasks@.len(),
                d == self@,
                d.tasks == tasks@.map_values(|t: TaskDto| t@),
                !is_blank(d.name),
                list@.id == d.id,
                list@.name == d.name,
                rebuild_tasks(d.tasks.take(i as int)) == Ok::<Seq<TaskView>, TaskError>(
                    list@.tasks,
                ),
            decreases tasks.len() - i,
        {
            proof {
                lemma_rebuild_prefix(d.tasks, i as int);
            }
            let t = &tasks[i];
            match list.add_task(t.title.as_str()) {
                Err(e) => {
                    proof {
                        assert(d.tasks[i as int] == tasks@[i as int]@);
                        assert(d.tasks.take(i + 1).last() == tasks@[i as int]@);
                        assert(rebuild_tasks(d.tasks.take(i + 1)) == Err::<Seq<TaskView>, TaskError>(
                            e,
                        ));
                        lemma_rebuild_stops(d.tasks, i as int);
                        assert(rebuild_tasks(d.tasks) == Err::<Seq<TaskView>, TaskError>(e));
                        assert(rebuild_list(d) == Err::<TaskListView, Seq<char>>(
                            invalid_task_message(e),
                        ));
                    }
                    let m = task_error_message(e);
                    assert(m.0@ == invalid_task_message(e));
                    return Err(m);
                },
                Ok(()) => {},
            }
            if t.completed {
                let ghost added = list@;
                proof {
                    let n = added.tasks.len() - 1;
                    assert(added.tasks[n].title == t.title@);
                    lemma_title_index(added.tasks, t.title@, n);
                }
                match list.complete_task(t.title.as_str()) {
                    Err(e) => {
                        return Err(task_error_message(e));
                    },
                    Ok(()) => {},
                }
                assert(list@.tasks == added.tasks.update(
                    added.tasks.len() - 1,
                    TaskView { title: t.title@, completed: true },
                ));
                assert(list@.tasks =~= added.tasks.drop_last().push(d.tasks[i as int]));
            }
            assert(list@.tasks =~= rebuild_tasks(d.tasks.take(i + 1))->Ok_0);
            i = i + 1;
        }
        assert(d.tasks.take(tasks@.len() as int) == d.tasks);
        Ok(list)
    }
}

/// Once rebuilding fails at a task, rebuilding any longer prefix fails with
/// the same error.
proof fn lemma_rebuild_stops(tasks: Seq<TaskView>, i: int)
    requires
        0 <= i < tasks.len(),
        rebuild_tasks(tasks.take(i + 1)) is Err,
    ensures
        rebuild_tasks(tasks) == rebuild_tasks(tasks.take(i + 1)),
    decreases tasks.len() - i,
{
    if i + 1 == tasks.len() {
        assert(tasks.take(i + 1) == tasks);
    } else {
        lemma_rebuild_prefix(tasks, i + 1);
        lemma_rebuild_stops(tasks, i + 1);
    }
}

/// The file name of the list stored under `id`: `<id>.toml`.
pub fn toml_file_name(id: &TaskListId) -> (r: String)
    ensures
        r@ == id@ + ".toml"@,
{
    id.as_str().to_owned().concat(".toml")
}

/// Valid tasks rebuild to themselves.
proof fn lemma_rebuild_valid(tasks: Seq<TaskView>)
    requires
        valid_tasks(tasks),
    ensures
        rebuild_tasks(tasks) == Ok::<Seq<TaskView>, TaskError>(tasks),
    decreases tasks.len(),
{
    if tasks.len() > 0 {
        let prev = tasks.drop_last();
        let n = tasks.len() - 1;
        assert(valid_tasks(prev)) by {
            assert forall|i: int, j: int|
                0 <= i < prev.len() && 0 <= j < prev.len() && i != j implies #[trigger] prev[i].title
                    != #[trigger] prev[j].title by {
                assert(tasks[i].title != tasks[j].title);
            }
            assert forall|i: int| 0 <= i < prev.len() implies !is_blank(#[trigger] prev[i].title) by {
                assert(tasks[i] == prev[i]);
            }
        }
        lemma_rebuild_valid(prev);
        assert(!is_blank(tasks[n].title));
        assert(!has_title(prev, tasks.last().title)) by {
            assert forall|i: int| 0 <= i < prev.len() implies #[trigger] prev[i].title != tasks.last().title by {
                assert(tasks[i].title != tasks[n].title);
            }
        }
        assert(prev.push(tasks.last()) =~= tasks);
    } else {
        assert(tasks =~= Seq::<TaskView>::empty());
    }
}

/// What is stored of a valid list reads back as that same list: its name,
/// its tasks in order, and which of them are done survive the round trip.
pub proof fn law_stored_list_round_trip(l: TaskListView)
    requires
        valid_list(l),
    ensures
        rebuild_list(l) == Ok::<TaskListView, Seq<char>>(l),
{
    lemma_rebuild_valid(l.tasks);
}

} // verus!
