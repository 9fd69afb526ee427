//! The application layer: the ports the use cases need from the outside
//! world, and the use cases that orchestrate the domain through them.
pub mod create_task_list;
pub mod delete_task_list;
pub mod list_task_lists;
pub mod ports;
pub mod rename_task_list;
pub mod task_commands;
pub mod guarantees;
