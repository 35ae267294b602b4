//! Task management: the registry of running tasks, their ids, and the
//! decisions taken while a task runs.
pub mod registry;
pub mod run;
pub mod types;
pub mod builder;
