use std::backtrace::Backtrace;

use vstd::prelude::*;

verus! {

#[verifier::external_type_specification]
#[verifier::external_body]
pub struct ExBacktrace(Backtrace);

/// A snapshot of the call stack, taken when a failure is first raised.
///
/// Frames are resolved into symbols only when the trace is printed.
#[derive(Debug)]
pub struct ExecutionTrace {
    frames: Backtrace,
}

/// Relies on `std::backtrace::Backtrace::force_capture`: it takes a
/// snapshot of the current stack whatever the environment says, and
/// defers symbol resolution until the trace is printed.
#[verifier::external_body]
fn force_capture() -> Backtrace {
    Backtrace::force_capture()
}

impl ExecutionTrace {
    /// Takes a snapshot of the calling context.
    pub fn capture() -> (r: ExecutionTrace) {
        ExecutionTrace { frames: force_capture() }
    }
}

} // verus!
