//! Terminal task-list manager: task lists and their tasks, the use cases that
//! keep them consistent in a repository, and the state machine of the
//! terminal interface.
pub mod adapters;
pub mod application;
pub mod domain;
pub mod text;
