//! The logic of the Manderrow mod manager's backend: the registry of running
//! tasks and the decisions taken while a task runs, the application
//! directories, and the framing of the mod index replies.
pub mod json;
pub mod tasks;
pub mod paths;
