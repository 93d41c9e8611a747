use pyo3_extract::entry::{argument_error, call_repro_n, call_repro_w, repro_n, repro_w};
use pyo3_extract::exception::{ExceptionKind, PyException};
use pyo3_extract::extract::{
    extract_nested, extract_wrapper, failed_to_extract_field, IntField, Nested, NestedField,
    NestedSource, Wrapper, WrapperSource,
};

fn system_exit(code: &str) -> PyException {
    PyException::new(ExceptionKind::SystemExit, code.to_string())
}

fn inner_reading(v: IntField) -> NestedSource {
    NestedSource { v }
}

fn outer_reading(v: IntField) -> WrapperSource {
    WrapperSource { n: NestedField::Value(inner_reading(v)) }
}

#[test]
fn test_success() {
    assert!(call_repro_w(outer_reading(IntField::Value(42))).ok() == Some(42));
    assert!(call_repro_n(inner_reading(IntField::Value(42))).ok() == Some(42));
}

#[test]
fn test_failure_wrapper() {
    let res = call_repro_w(outer_reading(IntField::ReadRaised(system_exit("1"))));
    let Err(err) = res else {
        panic!("should return error");
    };
    assert_eq!(err.to_string(), "TypeError: argument 'a': failed to extract field Wrapper.n");
}

#[test]
fn test_failure_nested() {
    let res = call_repro_n(inner_reading(IntField::ReadRaised(system_exit("1"))));
    let Err(err) = res else {
        panic!("should return error");
    };
    assert_eq!(err.to_string(), "SystemExit: 1");
}

#[test]
fn repeated_calls_give_the_same_outcome() {
    for _ in 0..2 {
        assert!(call_repro_w(outer_reading(IntField::Value(42))).ok() == Some(42));
        let err = call_repro_w(outer_reading(IntField::ReadRaised(system_exit("1")))).err().unwrap();
        assert_eq!(err.to_string(), "TypeError: argument 'a': failed to extract field Wrapper.n");
        let err = call_repro_n(inner_reading(IntField::ReadRaised(system_exit("1")))).err().unwrap();
        assert_eq!(err.to_string(), "SystemExit: 1");
    }
}

#[test]
fn entry_points_return_the_field() {
    assert_eq!(repro_w(Wrapper { n: Nested { v: -7 } }), -7);
    assert_eq!(repro_n(Nested { v: i32::MAX }), i32::MAX);
    assert!(call_repro_n(inner_reading(IntField::Value(i32::MIN))).ok() == Some(i32::MIN));
}

#[test]
fn field_error_names_record_and_field() {
    let e = failed_to_extract_field("Nested", "v");
    assert!(e.is_type_error());
    assert_eq!(e.to_string(), "TypeError: failed to extract field Nested.v");
}

#[test]
fn unconvertible_inner_value_is_a_field_error() {
    let conv = PyException::new(
        ExceptionKind::Other("OverflowError".to_string()),
        "too large".to_string(),
    );
    let err = call_repro_n(inner_reading(IntField::NotConvertible(conv))).err().unwrap();
    assert_eq!(err.to_string(), "TypeError: argument 'b': failed to extract field Nested.v");

    let conv = PyException::new(ExceptionKind::TypeError, "not an int".to_string());
    let err = call_repro_w(outer_reading(IntField::NotConvertible(conv))).err().unwrap();
    assert_eq!(err.to_string(), "TypeError: argument 'a': failed to extract field Wrapper.n");
}

#[test]
fn generic_error_from_a_direct_read_is_a_field_error() {
    let raised = PyException::new(ExceptionKind::TypeError, "bad".to_string());
    let err = call_repro_n(inner_reading(IntField::ReadRaised(raised))).err().unwrap();
    assert_eq!(err.to_string(), "TypeError: argument 'b': failed to extract field Nested.v");

    let raised = PyException::new(ExceptionKind::Other("ValueError".to_string()), "x".to_string());
    let err = call_repro_n(inner_reading(IntField::ReadRaised(raised))).err().unwrap();
    assert_eq!(err.to_string(), "TypeError: argument 'b': failed to extract field Nested.v");
}

#[test]
fn raised_read_of_outer_field() {
    let raised = PyException::new(
        ExceptionKind::Other("AttributeError".to_string()),
        "no attribute n".to_string(),
    );
    let err = call_repro_w(WrapperSource { n: NestedField::ReadRaised(raised) }).err().unwrap();
    assert_eq!(err.to_string(), "TypeError: argument 'a': failed to extract field Wrapper.n");

    let err = call_repro_w(WrapperSource { n: NestedField::ReadRaised(system_exit("3")) })
        .err()
        .unwrap();
    assert_eq!(err.to_string(), "SystemExit: 3");
}

#[test]
fn generic_error_in_the_inner_read_is_the_outer_field_error() {
    let raised = PyException::new(ExceptionKind::Other("ValueError".to_string()), "x".to_string());
    let err = call_repro_w(outer_reading(IntField::ReadRaised(raised))).err().unwrap();
    assert_eq!(err.to_string(), "TypeError: argument 'a': failed to extract field Wrapper.n");
}

#[test]
fn only_exit_requests_are_control_signals() {
    assert!(system_exit("1").is_control_signal());
    assert!(!PyException::new(ExceptionKind::TypeError, String::new()).is_control_signal());
    let other = PyException::new(ExceptionKind::Other("AttributeError".to_string()), String::new());
    assert!(!other.is_control_signal());
}

#[test]
fn argument_error_only_rewrites_type_errors() {
    let e = argument_error("x", PyException::new(ExceptionKind::TypeError, "m".to_string()));
    assert_eq!(e.to_string(), "TypeError: argument 'x': m");
    let e = argument_error("x", system_exit("0"));
    assert_eq!(e.to_string(), "SystemExit: 0");
    assert_eq!(e.kind_name(), "SystemExit");
}

#[test]
fn extraction_binds_whole_records() {
    let n = extract_nested(inner_reading(IntField::Value(5))).ok().unwrap();
    assert!(n == Nested { v: 5 });
    let w = extract_wrapper(outer_reading(IntField::Value(6))).ok().unwrap();
    assert!(w == Wrapper { n: Nested { v: 6 } });
    let e = extract_wrapper(outer_reading(IntField::ReadRaised(system_exit("1")))).err().unwrap();
    assert_eq!(e.to_string(), "TypeError: failed to extract field Wrapper.n");
    let e = extract_nested(inner_reading(IntField::ReadRaised(system_exit("1")))).err().unwrap();
    assert_eq!(e.to_string(), "SystemExit: 1");
}

#[test]
fn empty_message_renders_with_separator() {
    let e = PyException::new(ExceptionKind::Other(String::new()), String::new());
    assert_eq!(e.to_string(), ": ");
}
