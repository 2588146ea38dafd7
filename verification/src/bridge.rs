//! The generated entry points: script calls routed through the marshalling
//! converters into the host library, and the scoped-handle entry point that
//! exposes one borrow-limited native object per callback invocation.
//!
//! A marshalled call runs in two verified halves around the native call
//! itself.  `dispatch_call` validates the receiver handle, takes the
//! exclusive borrow for a mutating method, converts the arguments, and
//! records exactly one native call in the frame's trace, in issue order.
//! The surrounding application then performs the recorded native call and
//! hands its outcome to `finish_call`, which releases the borrow and
//! converts the outcome back into script values.

use vstd::prelude::*;

use crate::descriptor::{ConvertedArgs, MethodDescriptor, NativeOutcome, args_match, convert_args,
    convert_result, outcome_fits, result_values_spec};
use crate::errors::BindingError;
use crate::handles::{Handle, HandleTable};
use crate::values::{NativeValue, ScriptValue};

verus! {

/// One native call as the marshalling layer hands it to the host library:
/// the method's name, the receiver handle (none for a constructor), the
/// converted arguments in order, the script callback to run inside the
/// call if the method accepts one, and whether the call mutates the
/// receiver.
#[derive(Clone, Debug, PartialEq)]
pub struct CallAction {
    pub method: String,
    pub receiver: Option<Handle>,
    pub args: Vec<NativeValue>,
    pub callback: Option<u64>,
    pub mutates: bool,
}

/// True when `a` records exactly the call that `desc` declares for the
/// supplied receiver and arguments.
pub open spec fn is_dispatch_of(
    a: CallAction,
    desc: MethodDescriptor,
    receiver: Option<Handle>,
    args: Seq<ScriptValue>,
) -> bool {
    &&& a.method == desc.name
    &&& a.receiver == receiver
    &&& a.mutates == desc.mutates
    &&& (ConvertedArgs { natives: a.args, callback: a.callback }).corresponds(desc, args)
}

/// The checked half of a marshalled method call, before the native call.
///
/// In order: a receiver whose scope has closed is a scope escape; arguments
/// that do not fit the descriptor's arity and kinds are an argument
/// mismatch; a mutating method on a receiver whose exclusive borrow is
/// already held is an exclusive-access violation.  Only when all three
/// checks pass is exactly one native call appended to the trace — so the
/// host receives the calls of a frame in exactly the order the script
/// issued them — and for a mutating method the receiver's exclusive borrow
/// is then held until `finish_call`.
pub fn dispatch_call(
    table: &mut HandleTable,
    trace: &mut Vec<CallAction>,
    desc: &MethodDescriptor,
    receiver: Handle,
    args: &Vec<ScriptValue>,
) -> (r: Result<(), BindingError>)
    requires
        old(table).wf(),
        desc.wf(),
    ensures
        final(table).wf(),
        r is Ok <==> old(table).is_valid(receiver) && args_match(*desc, args@) && (desc.mutates
            ==> !old(table).is_mut_held(receiver)),
        !old(table).is_valid(receiver) ==> r == Err::<(), BindingError>(BindingError::ScopeEscape),
        old(table).is_valid(receiver) && !args_match(*desc, args@) ==> r == Err::<(),
            BindingError,
        >(BindingError::ArgumentMismatch),
        old(table).is_valid(receiver) && args_match(*desc, args@) && desc.mutates && old(
            table,
        ).is_mut_held(receiver) ==> r == Err::<(), BindingError>(
            BindingError::ExclusiveAccessViolation,
        ),
        r is Err ==> *final(table) == *old(table) && final(trace)@ == old(trace)@,
        r is Ok ==> final(trace)@.len() == old(trace)@.len() + 1,
        r is Ok ==> final(trace)@.subrange(0, old(trace)@.len() as int) == old(trace)@,
        r is Ok ==> is_dispatch_of(final(trace)@.last(), *desc, Some(receiver), args@),
        r is Ok && desc.mutates ==> final(table).is_mut_held(receiver),
        r is Ok && !desc.mutates ==> *final(table) == *old(table),
        final(table).generation_bound() == old(table).generation_bound(),
        forall|g: Handle| #[trigger] final(table).is_valid(g) == old(table).is_valid(g),
        forall|g: Handle|
            g != receiver ==> #[trigger] final(table).is_mut_held(g) == old(table).is_mut_held(g),
{
    match table.access(receiver) {
        Ok(_) => {},
        Err(e) => {
            return Err(e);
        },
    }
    let converted = match convert_args(desc, args) {
        Ok(c) => c,
        Err(e) => {
            return Err(e);
        },
    };
    if desc.mutates {
        match table.begin_mut(receiver) {
            Ok(_) => {},
            Err(e) => {
                return Err(e);
            },
        }
    }
    let action = CallAction {
        method: desc.name.clone(),
        receiver: Some(receiver),
        args: converted.natives,
        callback: converted.callback,
        mutates: desc.mutates,
    };
    trace.push(action);
    Ok(())
}

/// The checked half of a constructor-style call: no receiver, no borrow.
/// Arguments that do not fit are an argument mismatch; otherwise exactly
/// one native call is appended to the trace.
pub fn dispatch_static(
    trace: &mut Vec<CallAction>,
    desc: &MethodDescriptor,
    args: &Vec<ScriptValue>,
) -> (r: Result<(), BindingError>)
    requires
        desc.wf(),
    ensures
        r is Ok <==> args_match(*desc, args@),
        r is Err ==> r == Err::<(), BindingError>(BindingError::ArgumentMismatch) && final(trace)@
            == old(trace)@,
        r is Ok ==> final(trace)@.len() == old(trace)@.len() + 1,
        r is Ok ==> final(trace)@.subrange(0, old(trace)@.len() as int) == old(trace)@,
        r is Ok ==> is_dispatch_of(final(trace)@.last(), *desc, None, args@),
{
    let converted = match convert_args(desc, args) {
        Ok(c) => c,
        Err(e) => {
            return Err(e);
        },
    };
    let action = CallAction {
        method: desc.name.clone(),
        receiver: None,
        args: converted.natives,
        callback: converted.callback,
        mutates: desc.mutates,
    };
    trace.push(action);
    Ok(())
}

/// The converting half of a marshalled method call, after the native call.
///
/// Releases the exclusive borrow a mutating dispatch took, then converts
/// the native outcome by the descriptor's declared shape: no value for a
/// unit result, one wrapper for a single result, two wrappers in declared
/// order for a pair, and — for a callback-accepting method — exactly the
/// values the script callback returned, in their order.  A native-call
/// failure propagates unchanged.
pub fn finish_call(
    table: &mut HandleTable,
    desc: &MethodDescriptor,
    receiver: Handle,
    out: NativeOutcome,
) -> (r: Result<Vec<ScriptValue>, BindingError>)
    requires
        old(table).wf(),
        desc.wf(),
        outcome_fits(desc.ret, out),
        desc.mutates ==> old(table).is_mut_held(receiver),
    ensures
        final(table).wf(),
        desc.mutates ==> !final(table).is_mut_held(receiver),
        final(table).generation_bound() == old(table).generation_bound(),
        forall|g: Handle| #[trigger] final(table).is_valid(g) == old(table).is_valid(g),
        forall|g: Handle|
            g != receiver ==> #[trigger] final(table).is_mut_held(g) == old(table).is_mut_held(g),
        !desc.mutates ==> *final(table) == *old(table),
        out matches NativeOutcome::Fail(m) ==> r == Err::<Vec<ScriptValue>, BindingError>(
            BindingError::NativeCallError(m),
        ),
        !(out is Fail) ==> (r matches Ok(vs) && vs@ == result_values_spec(desc.ret, out)),
    {
    if desc.mutates {
        table.end_mut(receiver);
    }
    convert_result(desc.ret, out)
}

/// The scoped-handle entry point.
///
/// Registers one scoped native object, invokes the supplied script-calling
/// closure exactly once with the fresh handle, and deregisters the handle
/// before returning — also when the closure reports a script-level error,
/// which then propagates unchanged to the caller.  The returned handle
/// identity is already invalid on return: every later access through it is
/// a scope escape, and no later scope ever re-issues it.
pub fn with_scoped_handle<F: FnOnce(Handle) -> Result<Vec<ScriptValue>, BindingError>>(
    table: &mut HandleTable,
    f: F,
) -> (r: (Handle, Result<Vec<ScriptValue>, BindingError>))
    requires
        old(table).wf(),
        old(table).generation_bound() < u64::MAX,
        forall|h: Handle| call_requires(f, (h,)),
    ensures
        final(table).wf(),
        !final(table).is_valid(r.0),
        !old(table).is_valid(r.0),
        r.0.generation == old(table).generation_bound(),
        final(table).generation_bound() == old(table).generation_bound() + 1,
        call_ensures(f, (r.0,), r.1),
        forall|g: Handle|
            g != r.0 ==> #[trigger] final(table).is_valid(g) == old(table).is_valid(g),
        forall|g: Handle|
            g != r.0 ==> #[trigger] final(table).is_mut_held(g) == old(table).is_mut_held(g),
{
    let h = table.open_scope();
    let res = f(h);
    table.close_scope(h);
    (h, res)
}

/// What one frame's script callback produced, as the embedding application
/// receives it from the per-frame driver.
#[derive(Debug)]
pub struct FrameReport {
    /// The handle identity this frame's callback ran under; its scope is
    /// closed by the time the report exists, so it is only a diagnostic.
    pub handle: Handle,
    /// The values the callback returned, in their order; empty when the
    /// callback failed.
    pub values: Vec<ScriptValue>,
    /// The script-level error the callback raised, if any, to be reported
    /// by the application rather than crash it.
    pub error: Option<BindingError>,
}

/// The per-frame driver's decision half: runs one frame's script callback
/// under a fresh scoped handle and turns its outcome into a report.  A
/// script error never escapes as a crash: it lands in the report, the
/// frame produces no values, and the next frame starts from a clean,
/// deregistered state.
pub fn drive_frame<F: FnOnce(Handle) -> Result<Vec<ScriptValue>, BindingError>>(
    table: &mut HandleTable,
    f: F,
) -> (r: FrameReport)
    requires
        old(table).wf(),
        old(table).generation_bound() < u64::MAX,
        forall|h: Handle| call_requires(f, (h,)),
    ensures
        final(table).wf(),
        !final(table).is_valid(r.handle),
        r.handle.generation == old(table).generation_bound(),
        final(table).generation_bound() == old(table).generation_bound() + 1,
        r.error is None ==> call_ensures(f, (r.handle,), Ok(r.values)),
        r.error matches Some(e) ==> call_ensures(f, (r.handle,), Err(e)) && r.values@.len() == 0,
{
    let (handle, res) = with_scoped_handle(table, f);
    match res {
        Ok(values) => FrameReport { handle, values, error: None },
        Err(e) => FrameReport { handle, values: Vec::new(), error: Some(e) },
    }
}

} // verus!
