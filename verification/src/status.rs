//! Termination status of an external process and its translation into an
//! application-level exit code.

use vstd::prelude::*;

verus! {

/// How an external process ended: a normal exit code, a terminating signal,
/// a raw platform-specific code, or an indeterminate outcome.
#[derive(Clone, Copy, Debug, PartialEq, Eq, Structural)]
pub enum TerminationStatus {
    /// The process exited normally with the given code.
    Exited(u32),
    /// The process was terminated by the given signal number.
    Signaled(u8),
    /// A raw status code that is neither a normal exit nor a signal.
    Other(i32),
    /// The status could not be determined.
    Undetermined,
}

/// Exit code reported when the child's status could not be determined.
pub const UNDETERMINED_EXIT_CODE: i32 = 2;

/// The application exit code for a termination status: a normal exit code is
/// narrowed to 32 signed bits with wraparound, a signal number is returned as
/// a non-negative code, a raw code is returned unchanged, and an
/// indeterminate status maps to the fixed sentinel.
pub open spec fn spec_exit_code(status: TerminationStatus) -> int {
    match status {
        TerminationStatus::Exited(code) => if code <= 0x7fff_ffff {
            code as int
        } else {
            code - 0x1_0000_0000
        },
        TerminationStatus::Signaled(signal) => signal as int,
        TerminationStatus::Other(code) => code as int,
        TerminationStatus::Undetermined => UNDETERMINED_EXIT_CODE as int,
    }
}

/// Whether a termination status counts as success: only a normal exit with
/// code zero does.
pub open spec fn spec_success(status: TerminationStatus) -> bool {
    status == TerminationStatus::Exited(0u32)
}

impl TerminationStatus {
    /// Returns whether this status is a normal exit with code zero.
    pub fn success(&self) -> (r: bool)
        ensures
            r == spec_success(*self),
    {
        match *self {
            TerminationStatus::Exited(code) => code == 0,
            _ => false,
        }
    }
}

/// Translates a termination status into the application exit code.
pub fn exit_status_to_code(status: &TerminationStatus) -> (code: i32)
    ensures
        code as int == spec_exit_code(*status),
{
    match *status {
        TerminationStatus::Exited(exit_code) => {
            proof {
                assert((exit_code as i32) as int == if exit_code <= 0x7fff_ffff {
                    exit_code as int
                } else {
                    exit_code - 0x1_0000_0000
                }) by (bit_vector);
            }
            #[verifier::truncate] (exit_code as i32)
        },
        TerminationStatus::Signaled(signal) => signal as i32,
        TerminationStatus::Other(raw_code) => raw_code,
        TerminationStatus::Undetermined => UNDETERMINED_EXIT_CODE,
    }
}

} // verus!
