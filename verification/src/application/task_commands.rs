//! Use cases that operate on the tasks inside a list. Each loads the list via
//! the repository port, changes the aggregate, and saves it back.
use vstd::prelude::*;

use crate::application::ports::{saved_order, Stored, TaskListRepository};
use crate::domain::task::{Task, TaskError};
use crate::domain::task_list::{
    spec_add_task, spec_remove_task, spec_rename_task, spec_set_completed, task_views, TaskListId,
    TaskListView,
};

verus! {

/// Error shared by the task command use cases.
#[derive(Debug, PartialEq, Eq)]
pub enum TaskCommandError {
    ListNotFound,
    EmptyTitle,
    DuplicateTitle,
    TaskNotFound,
    Repo(String),
}

/// The use-case error for a domain error.
pub open spec fn command_error(e: TaskError) -> TaskCommandError {
    match e {
        TaskError::EmptyTitle => TaskCommandError::EmptyTitle,
        TaskError::DuplicateTitle => TaskCommandError::DuplicateTitle,
        TaskError::NotFound => TaskCommandError::TaskNotFound,
    }
}

impl From<TaskError> for TaskCommandError {
    fn from(e: TaskError) -> (r: Self) {
        match e {
            TaskError::EmptyTitle => Self::EmptyTitle,
            TaskError::DuplicateTitle => Self::DuplicateTitle,
            TaskError::NotFound => Self::TaskNotFound,
        }
    }
}

impl vstd::std_specs::convert::FromSpecImpl<TaskError> for TaskCommandError {
    open spec fn obeys_from_spec() -> bool {
        true
    }

    open spec fn from_spec(e: TaskError) -> Self {
        command_error(e)
    }
}

/// What a task command does to a repository that held `before` and holds
/// `after`, where `outcome` is what the domain operation gives on the list
/// stored under `id`: a missing list is reported and nothing changes; a
/// refused operation is reported with its error and nothing changes; an
/// accepted one is stored. A repository that can fail may instead report its
/// own error, after which its contents are unknown.
pub open spec fn list_command_done(
    before: Stored,
    after: Stored,
    id: Seq<char>,
    outcome: Result<TaskListView, TaskError>,
    infallible: bool,
    r: Result<(), TaskCommandError>,
) -> bool {
    ||| (!infallible && r matches Err(TaskCommandError::Repo(_)))
    ||| (!before.contains_key(id) && r == Err::<(), TaskCommandError>(
        TaskCommandError::ListNotFound,
    ) && after == before)
    ||| (before.contains_key(id) && match outcome {
        Ok(l) => r is Ok && after == before.insert(id, l),
        Err(e) => r == Err::<(), TaskCommandError>(command_error(e)) && after == before,
    })
}

/// How a task command leaves the order of the lists: an accepted change is
/// saved in its list's place, and a refused one changes nothing. After a
/// repository error the order is unknown.
pub open spec fn list_order_done(
    before: Seq<TaskListView>,
    after: Seq<TaskListView>,
    outcome: Result<TaskListView, TaskError>,
    r: Result<(), TaskCommandError>,
) -> bool {
    &&& r is Ok ==> outcome is Ok && after == saved_order(before, outcome->Ok_0)
    &&& r is Err && !(r matches Err(TaskCommandError::Repo(_))) ==> after == before
}

/// Add a task to an existing list.
pub struct AddTask<'a, R: TaskListRepository> {
    pub repo: &'a mut R,
}

impl<'a, R: TaskListRepository> AddTask<'a, R> {
    pub fn new(repo: &'a mut R) -> (r: Self)
        ensures
            *r.repo == *old(repo),
            *final(repo) == *final(r.repo),
    {
        AddTask { repo }
    }

    pub fn execute(&mut self, list_id: &TaskListId, title: &str) -> (r: Result<(), TaskCommandError>)
        ensures
            *final(final(self).repo) == *final(old(self).repo),
            (*final(self).repo).infallible() == (*old(self).repo).infallible(),
            list_command_done(
                (*old(self).repo).stored(),
                (*final(self).repo).stored(),
                list_id@,
                spec_add_task((*old(self).repo).stored()[list_id@], title@),
                (*old(self).repo).infallible(),
                r,
            ),
            list_order_done(
                (*old(self).repo).listed(),
                (*final(self).repo).listed(),
                spec_add_task((*old(self).repo).stored()[list_id@], title@),
                r,
            ),
    {
        let mut list = match self.repo.by_id(list_id) {
            Err(e) => return Err(TaskCommandError::Repo(e.0)),
            Ok(None) => return Err(TaskCommandError::ListNotFound),
            Ok(Some(l)) => l,
        };
        match list.add_task(title) {
            Err(e) => return Err(TaskCommandError::from(e)),
            Ok(()) => {},
        }
        match self.repo.save(&list) {
            Err(e) => Err(TaskCommandError::Repo(e.0)),
            Ok(()) => Ok(()),
        }
    }
}

/// Rename a task within an existing list.
pub struct RenameTask<'a, R: TaskListRepository> {
    pub repo: &'a mut R,
}

impl<'a, R: TaskListRepository> RenameTask<'a, R> {
    pub fn new(repo: &'a mut R) -> (r: Self)
        ensures
            *r.repo == *old(repo),
            *final(repo) == *final(r.repo),
    {
        RenameTask { repo }
    }

    pub fn execute(&mut self, list_id: &TaskListId, old_title: &str, new_title: &str) -> (r:
        Result<(), TaskCommandError>)
        ensures
            *final(final(self).repo) == *final(old(self).repo),
            (*final(self).repo).infallible() == (*old(self).repo).infallible(),
            list_command_done(
                (*old(self).repo).stored(),
                (*final(self).repo).stored(),
                list_id@,
                spec_rename_task((*old(self).repo).stored()[list_id@], old_title@, new_title@),
                (*old(self).repo).infallible(),
                r,
            ),
            list_order_done(
                (*old(self).repo).listed(),
                (*final(self).repo).listed(),
                spec_rename_task((*old(self).repo).stored()[list_id@], old_title@, new_title@),
                r,
            ),
    {
        let mut list = match self.repo.by_id(list_id) {
            Err(e) => return Err(TaskCommandError::Repo(e.0)),
            Ok(None) => return Err(TaskCommandError::ListNotFound),
            Ok(Some(l)) => l,
        };
        match list.rename_task(old_title, new_title) {
            Err(e) => return Err(TaskCommandError::from(e)),
            Ok(()) => {},
        }
        match self.repo.save(&list) {
            Err(e) => Err(TaskCommandError::Repo(e.0)),
            Ok(()) => Ok(()),
        }
    }
}

/// Delete a task from an existing list.
pub struct DeleteTask<'a, R: TaskListRepository> {
    pub repo: &'a mut R,
}

impl<'a, R: TaskListRepository> DeleteTask<'a, R> {
    pub fn new(repo: &'a mut R) -> (r: Self)
        ensures
            *r.repo == *old(repo),
            *final(repo) == *final(r.repo),
    {
        DeleteTask { repo }
    }

    pub fn execute(&mut self, list_id: &TaskListId, title: &str) -> (r: Result<(), TaskCommandError>)
        ensures
            *final(final(self).repo) == *final(old(self).repo),
            (*final(self).repo).infallible() == (*old(self).repo).infallible(),
            list_command_done(
                (*old(self).repo).stored(),
                (*final(self).repo).stored(),
                list_id@,
                spec_remove_task((*old(self).repo).stored()[list_id@], title@),
                (*old(self).repo).infallible(),
                r,
            ),
            list_order_done(
                (*old(self).repo).listed(),
                (*final(self).repo).listed(),
                spec_remove_task((*old(self).repo).stored()[list_id@], title@),
                r,
            ),
    {
        let mut list = match self.repo.by_id(list_id) {
            Err(e) => return Err(TaskCommandError::Repo(e.0)),
            Ok(None) => return Err(TaskCommandError::ListNotFound),
            Ok(Some(l)) => l,
        };
        match list.remove_task(title) {
            Err(e) => return Err(TaskCommandError::from(e)),
            Ok(()) => {},
        }
        match self.repo.save(&list) {
            Err(e) => Err(TaskCommandError::Repo(e.0)),
            Ok(()) => Ok(()),
        }
    }
}

/// Mark a task completed within an existing list (idempotent).
pub struct CompleteTask<'a, R: TaskListRepository> {
    pub repo: &'a mut R,
}

impl<'a, R: TaskListRepository> CompleteTask<'a, R> {
    pub fn new(repo: &'a mut R) -> (r: Self)
        ensures
            *r.repo == *old(repo),
            *final(repo) == *final(r.repo),
    {
        CompleteTask { repo }
    }

    pub fn execute(&mut self, list_id: &TaskListId, title: &str) -> (r: Result<(), TaskCommandError>)
        ensures
            *final(final(self).repo) == *final(old(self).repo),
            (*final(self).repo).infallible() == (*old(self).repo).infallible(),
            list_command_done(
                (*old(self).repo).stored(),
                (*final(self).repo).stored(),
                list_id@,
                spec_set_completed((*old(self).repo).stored()[list_id@], title@, true),
                (*old(self).repo).infallible(),
                r,
            ),
            list_order_done(
                (*old(self).repo).listed(),
                (*final(self).repo).listed(),
                spec_set_completed((*old(self).repo).stored()[list_id@], title@, true),
                r,
            ),
    {
        let mut list = match self.repo.by_id(list_id) {
            Err(e) => return Err(TaskCommandError::Repo(e.0)),
            Ok(None) => return Err(TaskCommandError::ListNotFound),
            Ok(Some(l)) => l,
        };
        match list.complete_task(title) {
            Err(e) => return Err(TaskCommandError::from(e)),
            Ok(()) => {},
        }
        match self.repo.save(&list) {
            Err(e) => Err(TaskCommandError::Repo(e.0)),
            Ok(()) => Ok(()),
        }
    }
}

/// Mark a task incomplete within an existing list (idempotent).
pub struct UncompleteTask<'a, R: TaskListRepository> {
    pub repo: &'a mut R,
}

impl<'a, R: TaskListRepository> UncompleteTask<'a, R> {
    pub fn new(repo: &'a mut R) -> (r: Self)
        ensures
            *r.repo == *old(repo),
            *final(repo) == *final(r.repo),
    {
        UncompleteTask { repo }
    }

    pub fn execute(&mut self, list_id: &TaskListId, title: &str) -> (r: Result<(), TaskCommandError>)
        ensures
            *final(final(self).repo) == *final(old(self).repo),
            (*final(self).repo).infallible() == (*old(self).repo).infallible(),
            list_command_done(
                (*old(self).repo).stored(),
                (*final(self).repo).stored(),
                list_id@,
                spec_set_completed((*old(self).repo).stored()[list_id@], title@, false),
                (*old(self).repo).infallible(),
                r,
            ),
            list_order_done(
                (*old(self).repo).listed(),
                (*final(self).repo).listed(),
                spec_set_completed((*old(self).repo).stored()[list_id@], title@, false),
                r,
            ),
    {
        let mut list = match self.repo.by_id(list_id) {
            Err(e) => return Err(TaskCommandError::Repo(e.0)),
            Ok(None) => return Err(TaskCommandError::ListNotFound),
            Ok(Some(l)) => l,
        };
        match list.uncomplete_task(title) {
            Err(e) => return Err(TaskCommandError::from(e)),
            Ok(()) => {},
        }
        match self.repo.save(&list) {
            Err(e) => Err(TaskCommandError::Repo(e.0)),
            Ok(()) => Ok(()),
        }
    }
}

/// Read the tasks of an existing list, in insertion order.
pub struct ListTasks<'a, R: TaskListRepository> {
    pub repo: &'a R,
}

impl<'a, R: TaskListRepository> ListTasks<'a, R> {
    pub fn new(repo: &'a R) -> (r: Self)
        ensures
            r.repo == repo,
    {
        ListTasks { repo }
    }

    pub fn execute(&self, list_id: &TaskListId) -> (r: Result<Vec<Task>, TaskCommandError>)
        ensures
            r matches Ok(v) ==> self.repo.stored().contains_key(list_id@) && task_views(v@)
                == self.repo.stored()[list_id@].tasks,
            r == Err::<Vec<Task>, TaskCommandError>(TaskCommandError::ListNotFound) ==> !self.repo.stored().contains_key(list_id@),
            r matches Err(TaskCommandError::Repo(_)) ==> !self.repo.infallible(),
            self.repo.infallible() ==> (r is Ok <==> self.repo.stored().contains_key(list_id@)),
            !(r matches Err(TaskCommandError::EmptyTitle)),
            !(r matches Err(TaskCommandError::DuplicateTitle)),
            !(r matches Err(TaskCommandError::TaskNotFound)),
    {
        let list = match self.repo.by_id(list_id) {
            Err(e) => return Err(TaskCommandError::Repo(e.0)),
            Ok(None) => return Err(TaskCommandError::ListNotFound),
            Ok(Some(l)) => l,
        };
        let tasks = list.tasks();
        let mut out: Vec<Task> = Vec::new();
        let mut i: usize = 0;
        while i < tasks.len()
            invariant
                i <= tasks@.len(),
                task_views(tasks@) == list@.tasks,
                task_views(out@) == list@.tasks.subrange(0, i as int),
            decreases tasks.len() - i,
        {
            out.push(tasks[i].clone());
            assert(list@.tasks.subrange(0, i + 1) == list@.tasks.subrange(0, i as int).push(
                tasks@[i as int]@,
            ));
            assert(task_views(out@) == task_views(out@.drop_last()).push(out@.last()@));
            i = i + 1;
        }
        assert(list@.tasks.subrange(0, tasks@.len() as int) == list@.tasks);
        Ok(out)
    }
}

} // verus!
