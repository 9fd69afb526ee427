//! Use case: delete an existing task list.
use vstd::prelude::*;

use crate::application::ports::{deleted_order, Stored, TaskListRepository};
use crate::domain::task_list::TaskListId;

verus! {

#[derive(Debug, PartialEq, Eq)]
pub enum DeleteError {
    NotFound,
    Repo(String),
}

/// What deleting the list stored under `id` does to a repository that held
/// `before` and holds `after`, answering `r`: a missing list is reported and
/// nothing changes; otherwise the list is removed. A repository that can
/// fail may instead report its own error.
pub open spec fn delete_outcome(
    before: Stored,
    after: Stored,
    id: Seq<char>,
    infallible: bool,
    r: Result<(), DeleteError>,
) -> bool {
    &&& r is Ok ==> before.contains_key(id) && after == before.remove(id)
    &&& r == Err::<(), DeleteError>(DeleteError::NotFound) ==> !before.contains_key(id) && after
        == before
    &&& r matches Err(DeleteError::Repo(_)) ==> !infallible
    &&& infallible ==> (r is Ok <==> before.contains_key(id))
}

pub struct DeleteTaskList<'a, R: TaskListRepository> {
    pub repo: &'a mut R,
}

impl<'a, R: TaskListRepository> DeleteTaskList<'a, R> {
    pub fn new(repo: &'a mut R) -> (r: Self)
        ensures
            *r.repo == *old(repo),
            *final(repo) == *final(r.repo),
    {
        DeleteTaskList { repo }
    }

    /// Delete the list stored under `id`; a missing list is reported.
    pub fn execute(&mut self, id: &TaskListId) -> (r: Result<(), DeleteError>)
        ensures
            *final(final(self).repo) == *final(old(self).repo),
            (*final(self).repo).infallible() == (*old(self).repo).infallible(),
            delete_outcome(
                (*old(self).repo).stored(),
                (*final(self).repo).stored(),
                id@,
                (*old(self).repo).infallible(),
                r,
            ),
            r is Ok ==> (*final(self).repo).listed() == deleted_order(
                (*old(self).repo).listed(),
                id@,
            ),
            r == Err::<(), DeleteError>(DeleteError::NotFound) ==> (*final(self).repo).listed()
                == (*old(self).repo).listed(),
    {
        match self.repo.by_id(id) {
            Err(e) => return Err(DeleteError::Repo(e.0)),
            Ok(None) => return Err(DeleteError::NotFound),
            Ok(Some(_)) => {},
        }
        match self.repo.delete(id) {
            Err(e) => Err(DeleteError::Repo(e.0)),
            Ok(()) => Ok(()),
        }
    }
}

} // verus!
