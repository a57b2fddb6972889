//! Compiles and runs submitted Jex programs: stages the source, drives the
//! compiler and the VM under time budgets, and classifies what came of them.

pub mod constants;
pub mod guarantees;
pub mod jex_commands;
pub mod run_command;
pub mod utils;
