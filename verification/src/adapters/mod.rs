//! Edge implementations of the application ports, the conversions that the
//! file-backed adapters need, and the state machine of the terminal interface.
pub mod in_memory;
pub mod toml_repo;
pub mod toml_theme;
pub mod uuid_id;
pub mod tui_app;
