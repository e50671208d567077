use arrow::datatypes::DataType as ArrowDatatype;
use common_query::error::{format_execute_function, format_into_vector};
use common_query::{DataTypeError, Error, InnerError, StatusCode};
use datafusion_common::DataFusionError;

fn throw_df_error() -> std::result::Result<(), DataFusionError> {
    Err(DataFusionError::NotImplemented("test".to_string()))
}

fn assert_error(err: &Error, code: StatusCode) {
    let inner_err = err.as_inner();
    assert_eq!(code, inner_err.status_code());
    assert!(inner_err.backtrace_opt().is_some());
}

fn raise_datatype_error() -> std::result::Result<(), DataTypeError> {
    Err(DataTypeError::new("test".to_string(), StatusCode::Internal))
}

#[test]
fn test_datafusion_as_source() {
    let source = throw_df_error().err().unwrap();
    let err: Error = InnerError::execute_function(source).into();
    assert_error(&err, StatusCode::EngineExecuteQuery);
}

#[test]
fn test_into_vector_error() {
    let source = raise_datatype_error().err().unwrap();
    let err: Error = InnerError::into_vector(source, ArrowDatatype::Int32).into();
    assert!(err.backtrace_opt().is_some());
    let datatype_err = raise_datatype_error().err().unwrap();
    assert_eq!(datatype_err.status_code(), err.status_code());
}

#[test]
fn wrapping_keeps_status_of_every_variant() {
    let variants = vec![
        InnerError::execute_function(DataFusionError::Internal("boom".to_string())),
        InnerError::from_scalar_value(DataTypeError::new(
            "bad scalar".to_string(),
            StatusCode::InvalidArguments,
        )),
        InnerError::into_vector(
            DataTypeError::new("bad array".to_string(), StatusCode::Unsupported),
            ArrowDatatype::Utf8,
        ),
        InnerError::create_accumulator("no state".to_string()),
        InnerError::downcast_vector("not a string vector".to_string()),
    ];
    let expected = vec![
        StatusCode::EngineExecuteQuery,
        StatusCode::InvalidArguments,
        StatusCode::Unsupported,
        StatusCode::EngineExecuteQuery,
        StatusCode::EngineExecuteQuery,
    ];
    for (v, code) in variants.into_iter().zip(expected) {
        let before = v.status_code();
        assert_eq!(before, code);
        let err = Error::from(v);
        assert_eq!(err.status_code(), before);
    }
}

#[test]
fn execution_failure_is_engine_fault_whatever_its_kind() {
    let sources = vec![
        DataFusionError::NotImplemented("not yet".to_string()),
        DataFusionError::Plan("bad plan".to_string()),
        DataFusionError::Execution("bad run".to_string()),
        DataFusionError::Internal("bug".to_string()),
    ];
    for source in sources {
        let err = Error::new(InnerError::execute_function(source));
        assert_eq!(err.status_code(), StatusCode::EngineExecuteQuery);
    }
}

#[test]
fn conversion_status_is_delegated() {
    let codes = vec![
        StatusCode::Internal,
        StatusCode::InvalidArguments,
        StatusCode::Unexpected,
    ];
    for code in codes {
        let scalar = InnerError::from_scalar_value(DataTypeError::new("s".to_string(), code));
        assert_eq!(scalar.status_code(), code);
        let array = InnerError::into_vector(
            DataTypeError::new("a".to_string(), code),
            ArrowDatatype::Int64,
        );
        assert_eq!(array.status_code(), code);
    }
}

#[test]
fn local_failures_carry_a_trace() {
    let accumulator = InnerError::create_accumulator("x".to_string());
    assert!(accumulator.backtrace_opt().is_some());
    let downcast = InnerError::downcast_vector("y".to_string());
    assert!(downcast.backtrace_opt().is_some());
    let execute = InnerError::execute_function(DataFusionError::Internal("z".to_string()));
    assert!(execute.backtrace_opt().is_some());
}

#[test]
fn delegated_failures_use_the_source_trace() {
    let source = DataTypeError::new("s".to_string(), StatusCode::Internal);
    let err = InnerError::from_scalar_value(source);
    let delegated = err.backtrace_opt().unwrap();
    match &err {
        InnerError::FromScalarValue { source } => {
            assert!(std::ptr::eq(source.backtrace_opt().unwrap(), delegated));
            assert!(std::ptr::eq(&source.backtrace, delegated));
        }
        _ => panic!("wrong variant"),
    }
}

#[test]
fn recovery_gives_back_the_wrapped_variant() {
    let err = Error::from(InnerError::create_accumulator("lost column".to_string()));
    match err.into_inner() {
        InnerError::CreateAccumulator { err_msg, .. } => assert_eq!(err_msg, "lost column"),
        other => panic!("unexpected variant: {:?}", other),
    }
    let err = Error::from(InnerError::into_vector(
        DataTypeError::new("m".to_string(), StatusCode::InvalidArguments),
        ArrowDatatype::Boolean,
    ));
    match err.as_inner() {
        InnerError::IntoVector { source, data_type } => {
            assert_eq!(source.msg, "m");
            assert_eq!(source.code, StatusCode::InvalidArguments);
            assert_eq!(*data_type, ArrowDatatype::Boolean);
        }
        other => panic!("unexpected variant: {:?}", other),
    }
}

#[test]
fn array_conversion_failure_shows_type_and_message() {
    let source = DataTypeError::new("cannot convert to int32".to_string(), StatusCode::Internal);
    let expected = source.status_code();
    let err = Error::from(InnerError::into_vector(source, ArrowDatatype::Int32));
    assert_eq!(err.status_code(), expected);
    let text = err.display_with("");
    assert!(text.contains("Int32"));
    assert!(text.contains("cannot convert to int32"));
    assert_eq!(
        text,
        "Fail to cast arrow array into vector: Int32, cannot convert to int32"
    );
}

#[test]
fn accumulator_failure_is_engine_fault_with_trace() {
    let err = Error::from(InnerError::create_accumulator(
        "missing required column".to_string(),
    ));
    assert_eq!(err.status_code(), StatusCode::EngineExecuteQuery);
    assert!(err.backtrace_opt().is_some());
    assert_eq!(
        err.display_with(""),
        "Failed to create accumulator: missing required column"
    );
}

#[test]
fn messages_of_each_variant() {
    let downcast = InnerError::downcast_vector("expect string".to_string());
    assert_eq!(downcast.display_with(""), "Failed to downcast vector: expect string");
    let scalar = InnerError::from_scalar_value(DataTypeError::new(
        "overflow".to_string(),
        StatusCode::InvalidArguments,
    ));
    assert_eq!(
        scalar.display_with(""),
        "Fail to cast scalar value into vector: overflow"
    );
    let source = DataFusionError::NotImplemented("test".to_string());
    let framework_text = source.to_string();
    let execute = InnerError::execute_function(source);
    assert_eq!(
        execute.display_with(&framework_text),
        format!("Fail to execute function, source: {}", framework_text)
    );
    assert_eq!(
        execute.display_with("plan failed"),
        "Fail to execute function, source: plan failed"
    );
}

#[test]
fn execute_function_text_is_assembled() {
    assert_eq!(
        format_execute_function("out of memory"),
        "Fail to execute function, source: out of memory"
    );
    assert_eq!(format_execute_function(""), "Fail to execute function, source: ");
}

#[test]
fn into_vector_text_is_assembled_in_order() {
    assert_eq!(
        format_into_vector("Utf8", "bad byte"),
        "Fail to cast arrow array into vector: Utf8, bad byte"
    );
    assert_eq!(format_into_vector("", ""), "Fail to cast arrow array into vector: , ");
}

#[test]
fn type_system_error_keeps_message_and_code() {
    let e = DataTypeError::new("cannot parse".to_string(), StatusCode::InvalidSyntax);
    assert_eq!(e.to_string(), "cannot parse");
    assert_eq!(e.status_code(), StatusCode::InvalidSyntax);
    assert!(e.backtrace_opt().is_some());
}
