//! The two functions exposed to the host, and how a failed binding of their
//! argument is reported.

use vstd::prelude::*;
use vstd::string::StringExecFns;
use crate::exception::{ExceptionKind, ExceptionKindModel, ExceptionModel, PyException, is_control_signal};
use crate::extract::{
    Nested, NestedFieldModel, NestedSource, NestedSourceModel, Wrapper, WrapperSource,
    WrapperSourceModel, IntFieldModel, bind_nested, bind_wrapper, extract_nested,
    extract_wrapper, field_error, result_model,
};

verus! {

/// How a failed binding of argument `arg` reaches the caller: a `TypeError`
/// gets the argument's name in front of its message; any other exception
/// passes unchanged.
pub open spec fn argument_error_of(arg: Seq<char>, e: ExceptionModel) -> ExceptionModel {
    if e.kind == ExceptionKindModel::TypeError {
        ExceptionModel {
            kind: ExceptionKindModel::TypeError,
            message: "argument '"@ + arg + "': "@ + e.message,
        }
    } else {
        e
    }
}

/// What calling `repro_w` on a host object gives.
pub open spec fn outcome_w(a: WrapperSourceModel) -> Result<i32, ExceptionModel> {
    match bind_wrapper(a) {
        Ok(w) => Ok(w.n.v),
        Err(e) => Err(argument_error_of("a"@, e)),
    }
}

/// What calling `repro_n` on a host object gives.
pub open spec fn outcome_n(b: NestedSourceModel) -> Result<i32, ExceptionModel> {
    match bind_nested(b) {
        Ok(n) => Ok(n.v),
        Err(e) => Err(argument_error_of("b"@, e)),
    }
}

/// What `repro_w` reports where its argument's field `n` fails.
pub open spec fn wrapper_argument_error() -> ExceptionModel {
    ExceptionModel {
        kind: ExceptionKindModel::TypeError,
        message: "argument 'a': failed to extract field Wrapper.n"@,
    }
}

/// What `repro_n` reports where its argument's field `v` fails.
pub open spec fn nested_argument_error() -> ExceptionModel {
    ExceptionModel {
        kind: ExceptionKindModel::TypeError,
        message: "argument 'b': failed to extract field Nested.v"@,
    }
}

proof fn lemma_wrapper_argument_error_text()
    ensures
        argument_error_of("a"@, field_error("Wrapper"@, "n"@)) == wrapper_argument_error(),
{
    reveal_strlit("argument 'a': failed to extract field Wrapper.n");
    reveal_strlit("argument '");
    reveal_strlit("a");
    reveal_strlit("': ");
    reveal_strlit("failed to extract field ");
    reveal_strlit("Wrapper");
    reveal_strlit(".");
    reveal_strlit("n");
    assert(("argument '"@ + "a"@ + "': "@ + ("failed to extract field "@ + "Wrapper"@ + "."@ + "n"@))
        =~= "argument 'a': failed to extract field Wrapper.n"@);
}

proof fn lemma_nested_argument_error_text()
    ensures
        argument_error_of("b"@, field_error("Nested"@, "v"@)) == nested_argument_error(),
{
    reveal_strlit("argument 'b': failed to extract field Nested.v");
    reveal_strlit("argument '");
    reveal_strlit("b");
    reveal_strlit("': ");
    reveal_strlit("failed to extract field ");
    reveal_strlit("Nested");
    reveal_strlit(".");
    reveal_strlit("v");
    assert(("argument '"@ + "b"@ + "': "@ + ("failed to extract field "@ + "Nested"@ + "."@ + "v"@))
        =~= "argument 'b': failed to extract field Nested.v"@);
}

/// Returns the inner value of the outer record.
pub fn repro_w(a: Wrapper) -> (r: i32)
    ensures
        r == a.n.v,
{
    a.n.v
}

/// Returns the value of the inner record.
pub fn repro_n(b: Nested) -> (r: i32)
    ensures
        r == b.v,
{
    b.v
}

/// Reports a failed binding of argument `arg`.
pub fn argument_error(arg: &str, e: PyException) -> (r: PyException)
    ensures
        r@ == argument_error_of(arg@, e@),
{
    if e.is_type_error() {
        let mut message = String::from_str("argument '");
        message.append(arg);
        message.append("': ");
        message.append(e.message.as_str());
        PyException::new(ExceptionKind::TypeError, message)
    } else {
        e
    }
}

/// Calls `repro_w` with a host object as its argument `a`.
pub fn call_repro_w(a: WrapperSource) -> (r: Result<i32, PyException>)
    ensures
        result_model(r) == outcome_w(a@),
        a@.n matches NestedFieldModel::Value(s) ==> (s.v matches IntFieldModel::Value(x)
            ==> result_model(r) == Ok::<i32, ExceptionModel>(x)),
        a@.n matches NestedFieldModel::Value(s) ==> (!(s.v is Value)
            ==> result_model(r) == Err::<i32, ExceptionModel>(wrapper_argument_error())),
        a@.n matches NestedFieldModel::ReadRaised(e) ==> (is_control_signal(e.kind)
            ==> result_model(r) == Err::<i32, ExceptionModel>(e)),
        a@.n matches NestedFieldModel::ReadRaised(e) ==> (!is_control_signal(e.kind)
            ==> result_model(r) == Err::<i32, ExceptionModel>(wrapper_argument_error())),
{
    proof {
        lemma_wrapper_argument_error_text();
    }
    match extract_wrapper(a) {
        Ok(w) => Ok(repro_w(w)),
        Err(e) => Err(argument_error("a", e)),
    }
}

/// Calls `repro_n` with a host object as its argument `b`.
pub fn call_repro_n(b: NestedSource) -> (r: Result<i32, PyException>)
    ensures
        result_model(r) == outcome_n(b@),
        b@.v matches IntFieldModel::Value(x) ==> result_model(r) == Ok::<i32, ExceptionModel>(x),
        b@.v matches IntFieldModel::ReadRaised(e) ==> (is_control_signal(e.kind)
            ==> result_model(r) == Err::<i32, ExceptionModel>(e)),
        b@.v matches IntFieldModel::ReadRaised(e) ==> (!is_control_signal(e.kind)
            ==> result_model(r) == Err::<i32, ExceptionModel>(nested_argument_error())),
        b@.v is NotConvertible ==> result_model(r) == Err::<i32, ExceptionModel>(nested_argument_error()),
{
    proof {
        lemma_nested_argument_error_text();
    }
    match extract_nested(b) {
        Ok(n) => Ok(repro_n(n)),
        Err(e) => Err(argument_error("b", e)),
    }
}

/// An object whose inner value reads as `x` gives `x` through either entry
/// point: through `repro_w` as the outer object, through `repro_n` as its
/// field.
pub proof fn lemma_both_entries_return_value(x: i32)
    ensures
        outcome_w(WrapperSourceModel {
            n: NestedFieldModel::Value(NestedSourceModel { v: IntFieldModel::Value(x) }),
        }) == Ok::<i32, ExceptionModel>(x),
        outcome_n(NestedSourceModel { v: IntFieldModel::Value(x) }) == Ok::<i32, ExceptionModel>(x),
{
}

/// Where reading the inner field of the object passed to `repro_w` raises,
/// whatever it raised (an exit request among them), the caller sees the field
/// error of `Wrapper.n`: the class and the value of what was raised are lost.
pub proof fn lemma_nested_signal_becomes_field_error(e: ExceptionModel)
    ensures
        outcome_w(WrapperSourceModel {
            n: NestedFieldModel::Value(NestedSourceModel { v: IntFieldModel::ReadRaised(e) }),
        }) == Err::<i32, ExceptionModel>(wrapper_argument_error()),
{
    lemma_wrapper_argument_error_text();
}

/// Where reading the field of an object passed straight to `repro_n` raises
/// an exit request, the caller sees that exception unchanged.
pub proof fn lemma_direct_signal_passes_through(e: ExceptionModel)
    requires
        is_control_signal(e.kind),
    ensures
        outcome_n(NestedSourceModel { v: IntFieldModel::ReadRaised(e) }) == Err::<i32, ExceptionModel>(e),
        outcome_w(WrapperSourceModel { n: NestedFieldModel::ReadRaised(e) }) == Err::<i32, ExceptionModel>(e),
{
}

/// Where a read of a field of the object passed to either entry point raises
/// an error that is no exit request, the caller sees the field error of that
/// record, named after the argument.
pub proof fn lemma_generic_error_becomes_field_error(e: ExceptionModel)
    requires
        !is_control_signal(e.kind),
    ensures
        outcome_n(NestedSourceModel { v: IntFieldModel::ReadRaised(e) })
            == Err::<i32, ExceptionModel>(nested_argument_error()),
        outcome_w(WrapperSourceModel { n: NestedFieldModel::ReadRaised(e) })
            == Err::<i32, ExceptionModel>(wrapper_argument_error()),
{
    lemma_wrapper_argument_error_text();
    lemma_nested_argument_error_text();
}

/// Calls carry no state: objects that read the same give the same outcome,
/// however often and in whatever order the calls are made.
pub proof fn lemma_calls_repeat(a1: WrapperSource, a2: WrapperSource, b1: NestedSource, b2: NestedSource)
    requires
        a1@ == a2@,
        b1@ == b2@,
    ensures
        outcome_w(a1@) == outcome_w(a2@),
        outcome_n(b1@) == outcome_n(b2@),
{
}

} // verus!
