//! Use case: rename an existing task list, keeping names non-blank and unique.
use vstd::prelude::*;

use crate::application::ports::{name_taken, saved_order, Stored, TaskListRepository};
use crate::domain::task_list::{DomainError, TaskListId, TaskListView};
use crate::text::is_blank;

verus! {

#[derive(Debug, PartialEq, Eq)]
pub enum RenameError {
    NotFound,
    EmptyName,
    DuplicateName,
    Repo(String),
}

impl From<DomainError> for RenameError {
    fn from(e: DomainError) -> (r: Self) {
        match e {
            DomainError::EmptyName => RenameError::EmptyName,
        }
    }
}

impl vstd::std_specs::convert::FromSpecImpl<DomainError> for RenameError {
    open spec fn obeys_from_spec() -> bool {
        true
    }

    open spec fn from_spec(e: DomainError) -> Self {
        match e {
            DomainError::EmptyName => RenameError::EmptyName,
        }
    }
}

/// Some list other than the one stored under `id` is named `name`.
pub open spec fn name_taken_by_other(m: Stored, name: Seq<char>, id: Seq<char>) -> bool {
    exists|k: Seq<char>| m.contains_key(k) && k != id && #[trigger] m[k].name == name
}

/// `l` under a new name.
pub open spec fn renamed(l: TaskListView, name: Seq<char>) -> TaskListView {
    TaskListView { id: l.id, name, tasks: l.tasks }
}

/// What renaming the list stored under `id` to `name` does to a repository
/// that held `before` and holds `after`, answering `r`: a missing list, a
/// name used by another list, and a blank name are refused, in that order,
/// and nothing changes; otherwise the list is stored under its new name. A
/// repository that can fail may instead report its own error.
pub open spec fn rename_outcome(
    before: Stored,
    after: Stored,
    id: Seq<char>,
    name: Seq<char>,
    infallible: bool,
    r: Result<(), RenameError>,
) -> bool {
    &&& r is Ok ==> {
        &&& before.contains_key(id)
        &&& !is_blank(name)
        &&& !name_taken(before, name) || before[id].name == name
        &&& after == before.insert(id, renamed(before[id], name))
    }
    &&& r is Err && !(r matches Err(RenameError::Repo(_))) ==> after == before
    &&& r == Err::<(), RenameError>(RenameError::NotFound) ==> !before.contains_key(id)
    &&& r == Err::<(), RenameError>(RenameError::DuplicateName) ==> before.contains_key(id)
        && name_taken_by_other(before, name, id)
    &&& r == Err::<(), RenameError>(RenameError::EmptyName) ==> before.contains_key(id) && is_blank(
        name,
    )
    &&& r matches Err(RenameError::Repo(_)) ==> !infallible
    &&& infallible ==> {
        &&& (!before.contains_key(id) ==> r == Err::<(), RenameError>(RenameError::NotFound))
        &&& (before.contains_key(id) && !name_taken_by_other(before, name, id) ==> (r is Ok
            <==> !is_blank(name)))
    }
}

pub struct RenameTaskList<'a, R: TaskListRepository> {
    pub repo: &'a mut R,
}

impl<'a, R: TaskListRepository> RenameTaskList<'a, R> {
    pub fn new(repo: &'a mut R) -> (r: Self)
        ensures
            *r.repo == *old(repo),
            *final(repo) == *final(r.repo),
    {
        RenameTaskList { repo }
    }

    /// Rename the list stored under `id`. A name in use by a *different* list
    /// is a conflict; renaming a list to its own current name is allowed.
    pub fn execute(&mut self, id: &TaskListId, new_name: &str) -> (r: Result<(), RenameError>)
        ensures
            *final(final(self).repo) == *final(old(self).repo),
            (*final(self).repo).infallible() == (*old(self).repo).infallible(),
            rename_outcome(
                (*old(self).repo).stored(),
                (*final(self).repo).stored(),
                id@,
                new_name@,
                (*old(self).repo).infallible(),
                r,
            ),
            r is Ok ==> (*final(self).repo).listed() == saved_order(
                (*old(self).repo).listed(),
                renamed((*old(self).repo).stored()[id@], new_name@),
            ),
            r is Err && !(r matches Err(RenameError::Repo(_))) ==> (*final(self).repo).listed()
                == (*old(self).repo).listed(),
    {
        let mut list = match self.repo.by_id(id) {
            Err(e) => return Err(RenameError::Repo(e.0)),
            Ok(None) => return Err(RenameError::NotFound),
            Ok(Some(l)) => l,
        };
        match self.repo.find_by_name(new_name) {
            Err(e) => return Err(RenameError::Repo(e.0)),
            Ok(Some(other)) => {
                if other.id().0 != id.0 {
                    return Err(RenameError::DuplicateName);
                }
            },
            Ok(None) => {},
        }
        match list.rename(new_name) {
            Err(e) => return Err(RenameError::from(e)),
            Ok(()) => {},
        }
        match self.repo.save(&list) {
            Err(e) => Err(RenameError::Repo(e.0)),
            Ok(()) => Ok(()),
        }
    }
}

} // verus!
