//! A single-user task tracker: an ordered store of tasks, the four commands
//! that act on it, and the command-line grammar that selects one of them.
//!
//! The crate holds the rules only. Reading and writing the persisted file and
//! printing belong to the program around it, which hands plain values in and
//! takes plain values back: it reads the store, has the command that the
//! arguments of the process select carried out ([`run`], or
//! [`Command::parse`] and then [`execute`]), writes the store back where the
//! outcome asks for it, and prints the outcome's lines.

pub mod command;
pub mod decimal;
pub mod dispatch;
pub mod store;
pub mod task;

pub use command::Command;
pub use dispatch::{execute, run, Notice, Outcome};
pub use store::{LoadError, TodoList};
pub use task::Task;
