//! Binding a host object to a record, field by field in declared order.
//!
//! A host object is given by what each attribute read on it gives: the
//! value, the exception that the read raised, or, for a value that was read
//! but is not of the field's type, the exception that the conversion raised.
//! A read that raised an exit request passes it through unchanged; any other
//! failure of a field is reported as a `TypeError` that names the record and
//! the field.

use vstd::prelude::*;
use vstd::string::StringExecFns;
use crate::exception::{
    ExceptionKind, ExceptionKindModel, ExceptionModel, PyException, is_control_signal,
};

verus! {

/// The inner record: one integer field.
#[derive(Clone, Copy, Debug, PartialEq, Eq, Structural)]
pub struct Nested {
    pub v: i32,
}

/// The outer record: one field that is itself a record.
#[derive(Clone, Copy, Debug, PartialEq, Eq, Structural)]
pub struct Wrapper {
    pub n: Nested,
}

/// What reading an integer attribute gave.
pub enum IntField {
    Value(i32),
    /// The attribute read itself raised.
    ReadRaised(PyException),
    /// The attribute was read, but its value is no `i32`.
    NotConvertible(PyException),
}

pub enum IntFieldModel {
    Value(i32),
    ReadRaised(ExceptionModel),
    NotConvertible(ExceptionModel),
}

impl View for IntField {
    type V = IntFieldModel;

    open spec fn view(&self) -> IntFieldModel {
        match self {
            IntField::Value(x) => IntFieldModel::Value(*x),
            IntField::ReadRaised(e) => IntFieldModel::ReadRaised(e@),
            IntField::NotConvertible(e) => IntFieldModel::NotConvertible(e@),
        }
    }
}

/// A host object bound as `Nested`.
pub struct NestedSource {
    pub v: IntField,
}

pub struct NestedSourceModel {
    pub v: IntFieldModel,
}

impl View for NestedSource {
    type V = NestedSourceModel;

    open spec fn view(&self) -> NestedSourceModel {
        NestedSourceModel { v: self.v@ }
    }
}

/// What reading an attribute that holds a `Nested` gave.
pub enum NestedField {
    /// The read gave an object, still to be bound as `Nested`.
    Value(NestedSource),
    ReadRaised(PyException),
}

pub enum NestedFieldModel {
    Value(NestedSourceModel),
    ReadRaised(ExceptionModel),
}

impl View for NestedField {
    type V = NestedFieldModel;

    open spec fn view(&self) -> NestedFieldModel {
        match self {
            NestedField::Value(s) => NestedFieldModel::Value(s@),
            NestedField::ReadRaised(e) => NestedFieldModel::ReadRaised(e@),
        }
    }
}

/// A host object bound as `Wrapper`.
pub struct WrapperSource {
    pub n: NestedField,
}

pub struct WrapperSourceModel {
    pub n: NestedFieldModel,
}

impl View for WrapperSource {
    type V = WrapperSourceModel;

    open spec fn view(&self) -> WrapperSourceModel {
        WrapperSourceModel { n: self.n@ }
    }
}

pub open spec fn result_model<T>(r: Result<T, PyException>) -> Result<T, ExceptionModel> {
    match r {
        Ok(x) => Ok(x),
        Err(e) => Err(e@),
    }
}

/// The error that reports a field whose value could not be bound.
pub open spec fn field_error(record: Seq<char>, field: Seq<char>) -> ExceptionModel {
    ExceptionModel {
        kind: ExceptionKindModel::TypeError,
        message: "failed to extract field "@ + record + "."@ + field,
    }
}

pub open spec fn bind_nested(s: NestedSourceModel) -> Result<Nested, ExceptionModel> {
    match s.v {
        IntFieldModel::Value(x) => Ok(Nested { v: x }),
        IntFieldModel::ReadRaised(e) => if is_control_signal(e.kind) {
            Err(e)
        } else {
            Err(field_error("Nested"@, "v"@))
        },
        IntFieldModel::NotConvertible(_) => Err(field_error("Nested"@, "v"@)),
    }
}

pub open spec fn bind_wrapper(s: WrapperSourceModel) -> Result<Wrapper, ExceptionModel> {
    match s.n {
        NestedFieldModel::ReadRaised(e) => if is_control_signal(e.kind) {
            Err(e)
        } else {
            Err(field_error("Wrapper"@, "n"@))
        },
        NestedFieldModel::Value(inner) => match bind_nested(inner) {
            Ok(n) => Ok(Wrapper { n }),
            Err(_) => Err(field_error("Wrapper"@, "n"@)),
        },
    }
}

/// Builds the `TypeError` that names a field that could not be bound.
pub fn failed_to_extract_field(record: &str, field: &str) -> (r: PyException)
    ensures
        r@ == field_error(record@, field@),
{
    let mut message = String::from_str("failed to extract field ");
    message.append(record);
    message.append(".");
    message.append(field);
    PyException::new(ExceptionKind::TypeError, message)
}

/// Binds a host object as `Nested`.
pub fn extract_nested(s: NestedSource) -> (r: Result<Nested, PyException>)
    ensures
        result_model(r) == bind_nested(s@),
{
    match s.v {
        IntField::Value(x) => Ok(Nested { v: x }),
        IntField::ReadRaised(e) => if e.is_control_signal() {
            Err(e)
        } else {
            Err(failed_to_extract_field("Nested", "v"))
        },
        IntField::NotConvertible(_) => Err(failed_to_extract_field("Nested", "v")),
    }
}

/// Binds a host object as `Wrapper`, binding its field `n` as `Nested`.
pub fn extract_wrapper(s: WrapperSource) -> (r: Result<Wrapper, PyException>)
    ensures
        result_model(r) == bind_wrapper(s@),
{
    match s.n {
        NestedField::ReadRaised(e) => if e.is_control_signal() {
            Err(e)
        } else {
            Err(failed_to_extract_field("Wrapper", "n"))
        },
        NestedField::Value(inner) => match extract_nested(inner) {
            Ok(n) => Ok(Wrapper { n }),
            Err(_) => Err(failed_to_extract_field("Wrapper", "n")),
        },
    }
}

} // verus!
