//! Bookkeeping of a background agent that runs named shell commands, at most
//! one instance per name: the registry of commands and running processes, and
//! the decisions that each request verb makes on it.

pub mod table;
pub mod json;
pub mod registry;
pub mod daemon;
pub mod laws;
