//! Use case: return every task list.
use vstd::prelude::*;

use crate::application::ports::{list_views, lists_exactly, RepoError, TaskListRepository};
use crate::domain::task_list::TaskList;

verus! {

pub struct ListTaskLists<'a, R: TaskListRepository> {
    pub repo: &'a R,
}

impl<'a, R: TaskListRepository> ListTaskLists<'a, R> {
    pub fn new(repo: &'a R) -> (r: Self)
        ensures
            r.repo == repo,
    {
        ListTaskLists { repo }
    }

    /// Every stored list, each once, in the repository's order.
    pub fn execute(&self) -> (r: Result<Vec<TaskList>, RepoError>)
        ensures
            self.repo.infallible() ==> r is Ok,
            r matches Ok(v) ==> lists_exactly(list_views(v@), self.repo.stored()),
            r matches Ok(v) ==> list_views(v@) == self.repo.listed(),
    {
        self.repo.all()
    }
}

} // verus!
