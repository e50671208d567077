use vstd::prelude::*;

verus! {

/// The engine-wide vocabulary of failure categories.
///
/// Callers react to a failure by its code, never by its message text.
#[derive(Debug, Clone, Copy, PartialEq, Eq, Structural)]
pub enum StatusCode {
    /// The operation succeeded.
    Success,
    /// The cause of the failure is not known.
    Unknown,
    /// The operation is not supported.
    Unsupported,
    /// Something happened that should never happen.
    Unexpected,
    /// An internal fault that no caller input explains.
    Internal,
    /// The caller passed invalid arguments.
    InvalidArguments,
    /// The statement could not be parsed.
    InvalidSyntax,
    /// Planning the query failed.
    PlanQuery,
    /// The query execution engine failed.
    EngineExecuteQuery,
    /// The table is missing.
    TableNotFound,
    /// The storage layer cannot be reached.
    StorageUnavailable,
    /// A runtime resource ran out.
    RuntimeResourcesExhausted,
}

} // verus!
