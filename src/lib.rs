//! Error classification and propagation for query execution.
//!
//! Failures raised while executing queries, converting values between the
//! type system and the columnar representation, or building aggregation
//! accumulators are captured as [`InnerError`] values, each tied to one
//! [`StatusCode`], and handed to callers behind the opaque [`Error`].

pub mod conversion;
pub mod error;
pub mod status_code;
pub mod trace;

pub use conversion::DataTypeError;
pub use error::{Error, InnerError, Result};
pub use status_code::StatusCode;
pub use trace::ExecutionTrace;
