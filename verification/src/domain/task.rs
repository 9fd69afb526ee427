//! The `Task` value object and task-operation errors.
use vstd::prelude::*;

use crate::text::{is_blank, is_blank_str};

verus! {

/// Errors from task operations on a list aggregate.
#[derive(Debug, Clone, Copy, PartialEq, Eq, Structural)]
pub enum TaskError {
    /// A task title was empty or whitespace-only.
    EmptyTitle,
    /// A task with the same title already exists in the list.
    DuplicateTitle,
    /// No task with the given title exists in the list.
    NotFound,
}

/// What a task is: its title and whether it is done.
pub struct TaskView {
    pub title: Seq<char>,
    pub completed: bool,
}

/// A single task. Invariant: `title` is not blank. New tasks start incomplete.
#[derive(Debug, PartialEq, Eq)]
pub struct Task {
    title: String,
    completed: bool,
}

impl View for Task {
    type V = TaskView;

    closed spec fn view(&self) -> TaskView {
        TaskView { title: self.title@, completed: self.completed }
    }
}

impl Clone for Task {
    fn clone(&self) -> (r: Self)
        ensures
            r == *self,
    {
        proof {
            use_type_invariant(self);
        }
        Task { title: self.title.clone(), completed: self.completed }
    }
}

impl Task {
    #[verifier::type_invariant]
    spec fn title_not_blank(self) -> bool {
        !is_blank(self.title@)
    }

    /// Create an incomplete task, enforcing the non-blank title invariant.
    pub fn new(title: &str) -> (r: Result<Self, TaskError>)
        ensures
            match r {
                Ok(t) => !is_blank(title@) && t@ == TaskView { title: title@, completed: false },
                Err(e) => is_blank(title@) && e == TaskError::EmptyTitle,
            },
    {
        if is_blank_str(title) {
            return Err(TaskError::EmptyTitle);
        }
        Ok(Task { title: title.to_owned(), completed: false })
    }

    /// A task with the given title and completion.
    pub(crate) fn from_parts(title: String, completed: bool) -> (r: Self)
        requires
            !is_blank(title@),
        ensures
            r@ == (TaskView { title: title@, completed }),
    {
        Task { title, completed }
    }

    pub fn title(&self) -> (r: &str)
        ensures
            r@ == self@.title,
            !is_blank(r@),
    {
        proof {
            use_type_invariant(self);
        }
        self.title.as_str()
    }

    pub fn is_completed(&self) -> (r: bool)
        ensures
            r == self@.completed,
    {
        self.completed
    }

    pub(crate) fn has_title(&self, t: &String) -> (r: bool)
        ensures
            r == (self@.title == t@),
            !is_blank(self@.title),
    {
        proof {
            use_type_invariant(self);
        }
        self.title == *t
    }

    /// Change the title. The `TaskList` aggregate validates the new title
    /// (non-blank, unique) before calling this.
    pub(crate) fn set_title(&mut self, title: String)
        requires
            !is_blank(title@),
        ensures
            final(self)@ == (TaskView { title: title@, completed: old(self)@.completed }),
    {
        self.title = title;
    }

    /// Mark the task completed. Idempotent.
    pub fn mark_completed(&mut self)
        ensures
            final(self)@ == (TaskView { title: old(self)@.title, completed: true }),
    {
        proof {
            use_type_invariant(&*self);
        }
        self.completed = true;
    }

    /// Mark the task incomplete. Idempotent.
    pub fn mark_uncompleted(&mut self)
        ensures
            final(self)@ == (TaskView { title: old(self)@.title, completed: false }),
    {
        proof {
            use_type_invariant(&*self);
        }
        self.completed = false;
    }
}

} // verus!
