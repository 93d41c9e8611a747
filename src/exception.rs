//! Exceptions as the host sees them: a class and a message.

use vstd::prelude::*;
use vstd::string::StringExecFns;

verus! {

/// The class of a raised host exception.
pub enum ExceptionKind {
    TypeError,
    SystemExit,
    /// Any other class, by its name.
    Other(String),
}

pub enum ExceptionKindModel {
    TypeError,
    SystemExit,
    Other(Seq<char>),
}

impl View for ExceptionKind {
    type V = ExceptionKindModel;

    open spec fn view(&self) -> ExceptionKindModel {
        match self {
            ExceptionKind::TypeError => ExceptionKindModel::TypeError,
            ExceptionKind::SystemExit => ExceptionKindModel::SystemExit,
            ExceptionKind::Other(name) => ExceptionKindModel::Other(name@),
        }
    }
}

/// A raised host exception: its class and the text of its value.
pub struct PyException {
    pub kind: ExceptionKind,
    pub message: String,
}

pub struct ExceptionModel {
    pub kind: ExceptionKindModel,
    pub message: Seq<char>,
}

impl View for PyException {
    type V = ExceptionModel;

    open spec fn view(&self) -> ExceptionModel {
        ExceptionModel { kind: self.kind@, message: self.message@ }
    }
}

/// The name under which the host prints a class.
pub open spec fn kind_name(kind: ExceptionKindModel) -> Seq<char> {
    match kind {
        ExceptionKindModel::TypeError => "TypeError"@,
        ExceptionKindModel::SystemExit => "SystemExit"@,
        ExceptionKindModel::Other(name) => name,
    }
}

/// An exit request: a control signal, not an error. Only such a signal
/// passes through a binding unchanged.
pub open spec fn is_control_signal(kind: ExceptionKindModel) -> bool {
    kind == ExceptionKindModel::SystemExit
}

/// An exception printed as `<class>: <message>`.
pub open spec fn rendered(e: ExceptionModel) -> Seq<char> {
    kind_name(e.kind) + ": "@ + e.message
}

impl PyException {
    pub fn new(kind: ExceptionKind, message: String) -> (r: PyException)
        ensures
            r@ == (ExceptionModel { kind: kind@, message: message@ }),
    {
        PyException { kind, message }
    }

    pub fn is_type_error(&self) -> (r: bool)
        ensures
            r == (self.kind@ == ExceptionKindModel::TypeError),
    {
        match self.kind {
            ExceptionKind::TypeError => true,
            _ => false,
        }
    }

    pub fn is_control_signal(&self) -> (r: bool)
        ensures
            r == is_control_signal(self.kind@),
    {
        match self.kind {
            ExceptionKind::SystemExit => true,
            _ => false,
        }
    }

    pub fn kind_name(&self) -> (r: String)
        ensures
            r@ == kind_name(self.kind@),
    {
        match &self.kind {
            ExceptionKind::TypeError => String::from_str("TypeError"),
            ExceptionKind::SystemExit => String::from_str("SystemExit"),
            ExceptionKind::Other(name) => name.clone(),
        }
    }

    /// The exception as the host prints it.
    pub fn to_string(&self) -> (r: String)
        ensures
            r@ == rendered(self@),
    {
        let mut r = self.kind_name();
        r.append(": ");
        r.append(self.message.as_str());
        r
    }
}

} // verus!
