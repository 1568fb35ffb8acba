//! Decision logic of a build-and-debug launcher.
//!
//! The launcher builds a project with the build tool's line-delimited
//! structured output switched on, picks the one executable the build produced,
//! and starts a debugger on it with the user's trailing arguments. Every
//! decision along that pipeline is a function here with a contract; spawning
//! processes and installing signal handlers is left to the caller.

pub mod text;
pub mod invoke;
pub mod nesting;
pub mod messages;
pub mod select;
pub mod debugger;
pub mod interrupt;
