use arrow::datatypes::DataType as ArrowDatatype;
use datafusion_common::DataFusionError;
use vstd::prelude::*;
use vstd::string::*;

use crate::conversion::DataTypeError;
use crate::status_code::StatusCode;
use crate::trace::ExecutionTrace;

verus! {

#[verifier::external_type_specification]
#[verifier::external_body]
pub struct ExDataFusionError(DataFusionError);

#[verifier::external_type_specification]
#[verifier::external_body]
pub struct ExArrowDatatype(ArrowDatatype);

/// Every failure this component raises, one variant per kind.
#[derive(Debug)]
pub enum InnerError {
    /// The execution framework failed while running a function.
    ExecuteFunction { source: DataFusionError, backtrace: ExecutionTrace },
    /// A scalar value could not be cast into a vector.
    FromScalarValue { source: DataTypeError },
    /// An arrow array of the given type could not be cast into a vector.
    IntoVector { source: DataTypeError, data_type: ArrowDatatype },
    /// An aggregation accumulator could not be built.
    CreateAccumulator { err_msg: String, backtrace: ExecutionTrace },
    /// A vector did not have the concrete type it was expected to have.
    DowncastVector { err_msg: String, backtrace: ExecutionTrace },
}

/// Relies on the derived `Debug` of arrow's `DataType`: the name of the
/// data type as arrow prints it.
#[verifier::external_body]
fn data_type_name(t: &ArrowDatatype) -> String {
    format!("{:?}", t)
}

/// The text of a failed function call, from the framework's message.
pub open spec fn execute_function_text(source: Seq<char>) -> Seq<char> {
    "Fail to execute function, source: "@ + source
}

/// The text of a failed cast of a scalar value, from the type system's
/// message.
pub open spec fn from_scalar_value_text(source: Seq<char>) -> Seq<char> {
    "Fail to cast scalar value into vector: "@ + source
}

/// The text of a failed cast of an array, from the printed data type and
/// the type system's message.
pub open spec fn into_vector_text(data_type: Seq<char>, source: Seq<char>) -> Seq<char> {
    "Fail to cast arrow array into vector: "@ + data_type + ", "@ + source
}

/// The text of a failure to build an accumulator.
pub open spec fn create_accumulator_text(err_msg: Seq<char>) -> Seq<char> {
    "Failed to create accumulator: "@ + err_msg
}

/// The text of a failure to downcast a vector.
pub open spec fn downcast_vector_text(err_msg: Seq<char>) -> Seq<char> {
    "Failed to downcast vector: "@ + err_msg
}

/// Writes the text of a failed function call.
pub fn format_execute_function(source: &str) -> (r: String)
    ensures
        r@ == execute_function_text(source@),
{
    let r = String::from_str("Fail to execute function, source: ");
    r.concat(source)
}

/// Writes the text of a failed cast of an array.
pub fn format_into_vector(data_type: &str, source: &str) -> (r: String)
    ensures
        r@ == into_vector_text(data_type@, source@),
{
    let r = String::from_str("Fail to cast arrow array into vector: ");
    let r = r.concat(data_type);
    let r = r.concat(", ");
    r.concat(source)
}

impl InnerError {
    /// Wraps a failure of the execution framework, capturing the calling
    /// context.
    pub fn execute_function(source: DataFusionError) -> (r: InnerError)
        ensures
            r matches InnerError::ExecuteFunction { source: s, .. } && s == source,
            r.status_spec() == StatusCode::EngineExecuteQuery,
            r.trace_spec() is Some,
    {
        InnerError::ExecuteFunction { source, backtrace: ExecutionTrace::capture() }
    }

    /// Wraps a failed scalar conversion; the trace stays the type system's.
    pub fn from_scalar_value(source: DataTypeError) -> (r: InnerError)
        ensures
            r == (InnerError::FromScalarValue { source }),
            r.status_spec() == source.status_spec(),
            r.trace_spec() == source.trace_spec(),
    {
        InnerError::FromScalarValue { source }
    }

    /// Wraps a failed array conversion with the data type it was attempted
    /// for; the trace stays the type system's.
    pub fn into_vector(source: DataTypeError, data_type: ArrowDatatype) -> (r: InnerError)
        ensures
            r == (InnerError::IntoVector { source, data_type }),
            r.status_spec() == source.status_spec(),
            r.trace_spec() == source.trace_spec(),
    {
        InnerError::IntoVector { source, data_type }
    }

    /// Reports that an accumulator could not be built, capturing the
    /// calling context.
    pub fn create_accumulator(err_msg: String) -> (r: InnerError)
        ensures
            r matches InnerError::CreateAccumulator { err_msg: m, .. } && m == err_msg,
            r.status_spec() == StatusCode::EngineExecuteQuery,
            r.trace_spec() is Some,
    {
        InnerError::CreateAccumulator { err_msg, backtrace: ExecutionTrace::capture() }
    }

    /// Reports that a vector could not be downcast, capturing the calling
    /// context.
    pub fn downcast_vector(err_msg: String) -> (r: InnerError)
        ensures
            r matches InnerError::DowncastVector { err_msg: m, .. } && m == err_msg,
            r.status_spec() == StatusCode::EngineExecuteQuery,
            r.trace_spec() is Some,
    {
        InnerError::DowncastVector { err_msg, backtrace: ExecutionTrace::capture() }
    }

    /// The classification of a failure: the type system's own for the
    /// conversions it reports, a fault of the execution engine otherwise.
    pub open spec fn status_spec(&self) -> StatusCode {
        match self {
            InnerError::ExecuteFunction { .. } => StatusCode::EngineExecuteQuery,
            InnerError::CreateAccumulator { .. } => StatusCode::EngineExecuteQuery,
            InnerError::DowncastVector { .. } => StatusCode::EngineExecuteQuery,
            InnerError::FromScalarValue { source } => source.status_spec(),
            InnerError::IntoVector { source, .. } => source.status_spec(),
        }
    }

    /// The trace of a failure: the one captured here, or for a conversion
    /// the one the type system captured.
    pub open spec fn trace_spec(&self) -> Option<&ExecutionTrace> {
        match self {
            InnerError::ExecuteFunction { backtrace, .. } => Some(backtrace),
            InnerError::CreateAccumulator { backtrace, .. } => Some(backtrace),
            InnerError::DowncastVector { backtrace, .. } => Some(backtrace),
            InnerError::FromScalarValue { source } => source.trace_spec(),
            InnerError::IntoVector { source, .. } => source.trace_spec(),
        }
    }

    pub fn status_code(&self) -> (r: StatusCode)
        ensures
            r == self.status_spec(),
    {
        match self {
            InnerError::ExecuteFunction { .. }
            | InnerError::CreateAccumulator { .. }
            | InnerError::DowncastVector { .. } => StatusCode::EngineExecuteQuery,
            InnerError::IntoVector { source, .. } => source.status_code(),
            InnerError::FromScalarValue { source } => source.status_code(),
        }
    }

    pub fn backtrace_opt(&self) -> (r: Option<&ExecutionTrace>)
        ensures
            r == self.trace_spec(),
    {
        match self {
            InnerError::ExecuteFunction { backtrace, .. } => Some(backtrace),
            InnerError::CreateAccumulator { backtrace, .. } => Some(backtrace),
            InnerError::DowncastVector { backtrace, .. } => Some(backtrace),
            InnerError::FromScalarValue { source } => source.backtrace_opt(),
            InnerError::IntoVector { source, .. } => source.backtrace_opt(),
        }
    }

    /// Whether `text` is what this failure shows a reader, where
    /// `framework_text` is the message the execution framework gives its
    /// own failure. Only the name arrow prints for a data type is left open.
    pub open spec fn shows(&self, framework_text: Seq<char>, text: Seq<char>) -> bool {
        match self {
            InnerError::ExecuteFunction { .. } => text == execute_function_text(framework_text),
            InnerError::FromScalarValue { source } => text == from_scalar_value_text(source.msg@),
            InnerError::IntoVector { source, .. } => exists|t: Seq<char>|
                text == #[trigger] into_vector_text(t, source.msg@),
            InnerError::CreateAccumulator { err_msg, .. } => text == create_accumulator_text(
                err_msg@,
            ),
            InnerError::DowncastVector { err_msg, .. } => text == downcast_vector_text(err_msg@),
        }
    }

    /// The message shown to a reader. A failure of the execution framework
    /// is shown with `framework_text`, the framework's message for it; the
    /// other kinds ignore that argument.
    pub fn display_with(&self, framework_text: &str) -> (r: String)
        ensures
            self.shows(framework_text@, r@),
    {
        match self {
            InnerError::ExecuteFunction { .. } => format_execute_function(framework_text),
            InnerError::FromScalarValue { source } => {
                let r = String::from_str("Fail to cast scalar value into vector: ");
                r.concat(source.msg.as_str())
            },
            InnerError::IntoVector { source, data_type } => {
                let t = data_type_name(data_type);
                format_into_vector(t.as_str(), source.msg.as_str())
            },
            InnerError::CreateAccumulator { err_msg, .. } => {
                let r = String::from_str("Failed to create accumulator: ");
                r.concat(err_msg.as_str())
            },
            InnerError::DowncastVector { err_msg, .. } => {
                let r = String::from_str("Failed to downcast vector: ");
                r.concat(err_msg.as_str())
            },
        }
    }
}

/// The result of an operation of this component.
pub type Result<T> = std::result::Result<T, Error>;

/// The one error type that callers outside this component see.
///
/// It holds exactly one [`InnerError`]; classification and trace are read
/// through it, and code inside this component may take the variant back.
#[derive(Debug)]
pub struct Error {
    inner: InnerError,
}

impl Error {
    /// The failure this error wraps.
    pub closed spec fn inner_spec(&self) -> InnerError {
        self.inner
    }

    /// The error that wraps `inner`.
    pub closed spec fn wrap_spec(inner: InnerError) -> Error {
        Error { inner }
    }

    pub open spec fn status_spec(&self) -> StatusCode {
        self.inner_spec().status_spec()
    }

    pub open spec fn trace_spec(&self) -> Option<&ExecutionTrace> {
        self.inner_spec().trace_spec()
    }

    /// Wraps a failure.
    pub fn new(inner: InnerError) -> (r: Error)
        ensures
            r == Error::wrap_spec(inner),
            r.inner_spec() == inner,
    {
        Error { inner }
    }

    pub fn status_code(&self) -> (r: StatusCode)
        ensures
            r == self.status_spec(),
    {
        self.inner.status_code()
    }

    pub fn backtrace_opt(&self) -> (r: Option<&ExecutionTrace>)
        ensures
            r == self.trace_spec(),
    {
        self.inner.backtrace_opt()
    }

    /// Takes a look at the wrapped failure.
    pub fn as_inner(&self) -> (r: &InnerError)
        ensures
            *r == self.inner_spec(),
    {
        &self.inner
    }

    /// Takes the wrapped failure back.
    pub fn into_inner(self) -> (r: InnerError)
        ensures
            r == self.inner_spec(),
    {
        self.inner
    }

    /// The message shown to a reader: that of the wrapped failure.
    pub fn display_with(&self, framework_text: &str) -> (r: String)
        ensures
            self.inner_spec().shows(framework_text@, r@),
    {
        self.inner.display_with(framework_text)
    }
}

impl From<InnerError> for Error {
    fn from(inner: InnerError) -> (r: Error) {
        Error::new(inner)
    }
}

impl vstd::std_specs::convert::FromSpecImpl<InnerError> for Error {
    open spec fn obeys_from_spec() -> bool {
        true
    }

    open spec fn from_spec(inner: InnerError) -> Error {
        Error::wrap_spec(inner)
    }
}

/// Wrapping a failure never changes its classification.
pub proof fn lemma_wrap_keeps_status(v: InnerError)
    ensures
        Error::wrap_spec(v).status_spec() == v.status_spec(),
{
}

/// Wrapping a failure keeps its trace.
pub proof fn lemma_wrap_keeps_trace(v: InnerError)
    ensures
        Error::wrap_spec(v).trace_spec() == v.trace_spec(),
{
}

/// A failure of the execution framework is always a fault of the engine,
/// whatever the framework's own kind of error.
pub proof fn lemma_execute_function_status(source: DataFusionError, backtrace: ExecutionTrace)
    ensures
        (InnerError::ExecuteFunction { source, backtrace }).status_spec()
            == StatusCode::EngineExecuteQuery,
{
}

/// A failed conversion keeps exactly the classification the type system
/// gave it, for a scalar as for an array of any data type.
pub proof fn lemma_conversion_status(source: DataTypeError, data_type: ArrowDatatype)
    ensures
        (InnerError::FromScalarValue { source }).status_spec() == source.status_spec(),
        (InnerError::IntoVector { source, data_type }).status_spec() == source.status_spec(),
{
}

/// Every failure has a trace: the one captured where this component raised
/// it, or for a conversion exactly the type system's own.
pub proof fn lemma_trace_present(e: InnerError)
    ensures
        e.trace_spec() is Some,
        e matches InnerError::ExecuteFunction { backtrace, .. } ==> e.trace_spec() == Some(
            &backtrace,
        ),
        e matches InnerError::CreateAccumulator { backtrace, .. } ==> e.trace_spec() == Some(
            &backtrace,
        ),
        e matches InnerError::DowncastVector { backtrace, .. } ==> e.trace_spec() == Some(
            &backtrace,
        ),
        e matches InnerError::FromScalarValue { source } ==> e.trace_spec() == source.trace_spec(),
        e matches InnerError::IntoVector { source, .. } ==> e.trace_spec() == source.trace_spec(),
{
}

/// The text of a failed cast of an array holds the printed data type right
/// after its fixed opening, and ends with the type system's message.
pub proof fn lemma_into_vector_text_parts(data_type: Seq<char>, source: Seq<char>)
    ensures
        ({
            let text = into_vector_text(data_type, source);
            let start = "Fail to cast arrow array into vector: "@.len();
            &&& text.subrange(start as int, start + data_type.len() as int) == data_type
            &&& text.subrange(text.len() - source.len(), text.len() as int) == source
        }),
{
    let head = "Fail to cast arrow array into vector: "@;
    let text = into_vector_text(data_type, source);
    assert(text.subrange(head.len() as int, head.len() + data_type.len() as int) =~= data_type);
    assert(text.subrange(text.len() - source.len(), text.len() as int) =~= source);
}

/// Taking a failure back out of the error that wraps it gives the very
/// same failure, variant and payload.
pub proof fn lemma_recover_after_wrap(v: InnerError)
    ensures
        Error::wrap_spec(v).inner_spec() == v,
{
}

} // verus!
