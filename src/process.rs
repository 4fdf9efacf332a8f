//! How the exit status of an external version-control command becomes the
//! outcome of its step.
use vstd::prelude::*;

verus! {

/// Why an external command did not succeed.
#[derive(Clone, Copy, Debug, PartialEq, Eq, Structural)]
pub enum ProcessFailure {
    /// It exited with this non-zero code.
    ExitCode(i32),
    /// It ended without an exit code (killed by a signal).
    Terminated,
}

/// The outcome of a command whose exit code is `code` (`None` when it ended
/// without one).
pub open spec fn exit_result(code: Option<i32>) -> Result<(), ProcessFailure> {
    match code {
        Some(c) => if c == 0 {
            Ok(())
        } else {
            Err(ProcessFailure::ExitCode(c))
        },
        None => Err(ProcessFailure::Terminated),
    }
}

/// Success is an exit code of zero; any other code is a failure that
/// carries it, and a command that ended without a code failed abnormally.
pub fn check_exit(code: Option<i32>) -> (r: Result<(), ProcessFailure>)
    ensures
        r == exit_result(code),
{
    match code {
        Some(c) => if c == 0 {
            Ok(())
        } else {
            Err(ProcessFailure::ExitCode(c))
        },
        None => Err(ProcessFailure::Terminated),
    }
}

} // verus!
