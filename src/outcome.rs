//! What running a command came to: its exit status and captured output, and
//! the error that a failed run is reported as.

use vstd::prelude::*;

use crate::builder::{display_text, CommandView, ProcessBuilder};

verus! {

/// The error that the operating system reports when it cannot start a process.
#[verifier::external_type_specification]
#[verifier::external_body]
pub struct ExIoError(std::io::Error);

/// How a process ended: its exit code, or none where it was ended otherwise
/// (by a signal).
#[derive(Clone, Copy, Debug)]
pub struct ExitStatus {
    pub code: Option<i32>,
}

impl ExitStatus {
    /// The process ended by itself with exit code zero.
    pub open spec fn is_success(self) -> bool {
        self.code == Some(0i32)
    }

    /// Whether the process ended by itself with exit code zero.
    pub fn success(&self) -> (r: bool)
        ensures
            r == self.is_success(),
    {
        match self.code {
            Some(c) => c == 0,
            None => false,
        }
    }
}

/// A finished process with what it wrote to its standard streams.
#[derive(Clone, Debug)]
pub struct ProcessOutput {
    pub status: ExitStatus,
    pub stdout: Vec<u8>,
    pub stderr: Vec<u8>,
}

/// A run that failed. A process that could not be started carries the
/// operating system's error in `cause` and nothing else; one that ended
/// unsuccessfully carries its status in `exit`, and its captured streams in
/// `output` where they were captured.
#[derive(Debug)]
pub struct ProcessError {
    pub desc: String,
    pub exit: Option<ExitStatus>,
    pub output: Option<ProcessOutput>,
    pub cause: Option<std::io::Error>,
}

/// The message of a process that could not be started.
pub open spec fn spawn_message(v: CommandView) -> Seq<char> {
    "Could not execute process "@ + display_text(v)
}

/// The message of a process that ended unsuccessfully.
pub open spec fn exit_message(v: CommandView) -> Seq<char> {
    "Process didn't exit successfully: "@ + display_text(v)
}

/// `err` reports that the command of `v` could not be started, because of `cause`.
pub open spec fn is_spawn_error(err: ProcessError, v: CommandView, cause: std::io::Error) -> bool {
    &&& err.desc@ == spawn_message(v)
    &&& err.cause == Some(cause)
    &&& err.exit.is_none()
    &&& err.output.is_none()
}

/// `err` reports that the command of `v` ended with `status`, with `output`
/// captured where there is any.
pub open spec fn is_exit_error(
    err: ProcessError,
    v: CommandView,
    status: ExitStatus,
    output: Option<ProcessOutput>,
) -> bool {
    &&& err.desc@ == exit_message(v)
    &&& err.cause.is_none()
    &&& err.exit == Some(status)
    &&& err.output == output
}

impl ProcessBuilder {
    fn spawn_error(&self, cause: std::io::Error) -> (r: ProcessError)
        ensures
            is_spawn_error(r, self@, cause),
    {
        let mut desc = String::from_str("Could not execute process ");
        let shown = self.to_string();
        desc.append(shown.as_str());
        ProcessError { desc, exit: None, output: None, cause: Some(cause) }
    }

    fn exit_error(&self, status: ExitStatus, output: Option<ProcessOutput>) -> (r: ProcessError)
        ensures
            is_exit_error(r, self@, status, output),
    {
        let mut desc = String::from_str("Process didn't exit successfully: ");
        let shown = self.to_string();
        desc.append(shown.as_str());
        ProcessError { desc, exit: Some(status), output, cause: None }
    }

    /// Classifies a run of this builder's command whose output went to the
    /// caller's streams: `ran` is the status it ended with, or the error that
    /// kept it from starting.
    pub fn exec_outcome(&self, ran: Result<ExitStatus, std::io::Error>) -> (r: Result<(), ProcessError>)
        ensures
            match ran {
                Err(cause) => r matches Err(err) && is_spawn_error(err, self@, cause),
                Ok(status) => if status.is_success() {
                    r is Ok
                } else {
                    r matches Err(err) && is_exit_error(err, self@, status, None)
                },
            },
    {
        match ran {
            Err(cause) => Err(self.spawn_error(cause)),
            Ok(status) => {
                if status.success() {
                    Ok(())
                } else {
                    Err(self.exit_error(status, None))
                }
            },
        }
    }

    /// Classifies a run of this builder's command whose output was captured:
    /// `ran` is the finished process, or the error that kept it from starting.
    pub fn exec_with_output_outcome(&self, ran: Result<ProcessOutput, std::io::Error>) -> (r: Result<
        ProcessOutput,
        ProcessError,
    >)
        ensures
            match ran {
                Err(cause) => r matches Err(err) && is_spawn_error(err, self@, cause),
                Ok(out) => if out.status.is_success() {
                    r == Ok::<ProcessOutput, ProcessError>(out)
                } else {
                    r matches Err(err) && is_exit_error(err, self@, out.status, Some(out))
                },
            },
    {
        match ran {
            Err(cause) => Err(self.spawn_error(cause)),
            Ok(out) => {
                if out.status.success() {
                    Ok(out)
                } else {
                    let status = out.status;
                    Err(self.exit_error(status, Some(out)))
                }
            },
        }
    }
}

} // verus!
