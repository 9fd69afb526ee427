//! Use case: create a task list. Validates the name, then persists it.
use vstd::prelude::*;

use crate::application::ports::{name_taken, saved_order, IdGenerator, Stored, TaskListRepository};
use crate::domain::task_list::{DomainError, TaskList, TaskListId, TaskListView};
use crate::text::is_blank;

verus! {

#[derive(Debug, PartialEq, Eq)]
pub enum CreateError {
    EmptyName,
    DuplicateName,
    Repo(String),
}

impl From<DomainError> for CreateError {
    fn from(e: DomainError) -> (r: Self) {
        match e {
            DomainError::EmptyName => CreateError::EmptyName,
        }
    }
}

impl vstd::std_specs::convert::FromSpecImpl<DomainError> for CreateError {
    open spec fn obeys_from_spec() -> bool {
        true
    }

    open spec fn from_spec(e: DomainError) -> Self {
        match e {
            DomainError::EmptyName => CreateError::EmptyName,
        }
    }
}

/// A new, empty list with the given id and name.
pub open spec fn fresh_list(id: Seq<char>, name: Seq<char>) -> TaskListView {
    TaskListView { id, name, tasks: Seq::empty() }
}

/// What creating a list named `name` does to a repository that held
/// `before` and holds `after`, answering `r`: a blank name is refused, a
/// name in use is refused, and otherwise a new empty list is stored under
/// the new id. A repository that can fail may instead report its own error.
pub open spec fn create_outcome(
    before: Stored,
    after: Stored,
    name: Seq<char>,
    infallible: bool,
    r: Result<TaskListId, CreateError>,
) -> bool {
    &&& (r == Err::<TaskListId, CreateError>(CreateError::EmptyName)) == is_blank(name)
    &&& is_blank(name) ==> after == before
    &&& r == Err::<TaskListId, CreateError>(CreateError::DuplicateName) ==> name_taken(before, name)
        && after == before
    &&& r matches Ok(id) ==> !is_blank(name) && !name_taken(before, name) && after == before.insert(
        id@,
        fresh_list(id@, name),
    )
    &&& r matches Err(CreateError::Repo(_)) ==> !infallible
    &&& infallible && !is_blank(name) ==> (r is Ok <==> !name_taken(before, name))
}

pub struct CreateTaskList<'a, R: TaskListRepository, I: IdGenerator> {
    pub repo: &'a mut R,
    pub ids: &'a I,
}

impl<'a, R: TaskListRepository, I: IdGenerator> CreateTaskList<'a, R, I> {
    pub fn new(repo: &'a mut R, ids: &'a I) -> (r: Self)
        ensures
            *r.repo == *old(repo),
            *final(repo) == *final(r.repo),
            r.ids == ids,
    {
        CreateTaskList { repo, ids }
    }

    /// Build a validated `TaskList` and persist it, returning its id.
    /// Rejects a blank name (domain invariant) or a name already in use.
    pub fn execute(&mut self, name: &str) -> (r: Result<TaskListId, CreateError>)
        ensures
            *final(final(self).repo) == *final(old(self).repo),
            final(self).ids == old(self).ids,
            (*final(self).repo).infallible() == (*old(self).repo).infallible(),
            create_outcome(
                (*old(self).repo).stored(),
                (*final(self).repo).stored(),
                name@,
                (*old(self).repo).infallible(),
                r,
            ),
            r matches Ok(id) ==> (*final(self).repo).listed() == saved_order(
                (*old(self).repo).listed(),
                fresh_list(id@, name@),
            ),
            r is Err && !(r matches Err(CreateError::Repo(_))) ==> (*final(self).repo).listed()
                == (*old(self).repo).listed(),
    {
        let id = self.ids.new_id();
        let list = match TaskList::new(id, name) {
            Ok(l) => l,
            Err(e) => return Err(CreateError::from(e)),
        };
        match self.repo.find_by_name(list.name()) {
            Err(e) => return Err(CreateError::Repo(e.0)),
            Ok(Some(_)) => return Err(CreateError::DuplicateName),
            Ok(None) => {},
        }
        match self.repo.save(&list) {
            Err(e) => return Err(CreateError::Repo(e.0)),
            Ok(()) => {},
        }
        Ok(list.id().clone())
    }
}

} // verus!
