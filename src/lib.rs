//! Configuration and outcome handling for child processes: a builder that
//! records the program, its arguments, its working directory and a sparse set
//! of environment overrides, turns them into an inert command descriptor, and
//! classifies what happened when that command was run.

pub mod builder;
pub mod laws;
pub mod outcome;
pub mod overrides;
pub mod text;

pub use builder::{process, CommandSpec, CommandView, ProcessBuilder};
pub use outcome::{ExitStatus, ProcessError, ProcessOutput};
pub use overrides::EnvEntry;
