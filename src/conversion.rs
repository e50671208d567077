use vstd::prelude::*;

use crate::status_code::StatusCode;
use crate::trace::ExecutionTrace;

verus! {

/// A failure of the type system while converting a value.
///
/// The type system judges its own failures: the error carries the code
/// it was raised with and the trace taken where it was raised.
#[derive(Debug)]
pub struct DataTypeError {
    /// What went wrong, as shown to a reader.
    pub msg: String,
    /// How the type system classifies the failure.
    pub code: StatusCode,
    /// Where the failure was raised.
    pub backtrace: ExecutionTrace,
}

impl DataTypeError {
    /// Raises a conversion failure here, capturing the calling context.
    pub fn new(msg: String, code: StatusCode) -> (r: DataTypeError)
        ensures
            r.msg@ == msg@,
            r.code == code,
    {
        DataTypeError { msg, code, backtrace: ExecutionTrace::capture() }
    }

    /// The classification the type system gave this failure.
    pub open spec fn status_spec(&self) -> StatusCode {
        self.code
    }

    /// The trace of this failure.
    pub open spec fn trace_spec(&self) -> Option<&ExecutionTrace> {
        Some(&self.backtrace)
    }

    pub fn status_code(&self) -> (r: StatusCode)
        ensures
            r == self.status_spec(),
    {
        self.code
    }

    pub fn backtrace_opt(&self) -> (r: Option<&ExecutionTrace>)
        ensures
            r == self.trace_spec(),
    {
        Some(&self.backtrace)
    }

    /// The message shown to a reader.
    pub fn to_string(&self) -> (r: String)
        ensures
            r@ == self.msg@,
    {
        self.msg.clone()
    }
}

} // verus!
