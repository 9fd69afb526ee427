//! The pure domain: task lists, their tasks, and the colour theme.
pub mod colour_theme;
pub mod task;
pub mod task_list;
