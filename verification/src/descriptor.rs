//! Method descriptors and the two marshalling converters.
//!
//! A descriptor is the static binding of a script-callable method: its name,
//! the declared kind of every argument, the shape of the result, and whether
//! the call needs the receiver's exclusive borrow.  The generated entry
//! point for any such method is the composition of two converters defined
//! here: `convert_args` checks arity and kinds and unwraps the arguments
//! going in, and `convert_result` wraps the native outcome coming back out.

use vstd::prelude::*;

use crate::errors::BindingError;
use crate::values::NativeValue;
use crate::values::ScriptValue;
use crate::values::ValueKind;
use crate::values::from_native;
use crate::values::from_native_spec;
use crate::values::is_native_kind;
use crate::values::kind_of;
use crate::values::native_kind_of;
use crate::values::to_native_ref;
use crate::values::to_native_spec;

verus! {

/// The declared shape of a marshalled method's result: nothing, one wrapped
/// value, an ordered pair of wrapped values, or — for callback-accepting
/// methods — whatever the script callback itself returned.
#[derive(Clone, Copy, PartialEq, Eq, Structural, Debug)]
pub enum ReturnShape {
    Unit,
    Single(ValueKind),
    Pair(ValueKind, ValueKind),
    FromCallback,
}

/// The static binding of one script-callable native method.  Built once at
/// registration time and never mutated afterwards.
#[derive(Clone, Debug)]
pub struct MethodDescriptor {
    pub name: String,
    pub args: Vec<ValueKind>,
    pub ret: ReturnShape,
    pub mutates: bool,
}

/// What the host library (or, for a callback-accepting method, the script
/// callback) handed back from one native call.
#[derive(Debug, PartialEq)]
pub enum NativeOutcome {
    Unit,
    One(NativeValue),
    Two(NativeValue, NativeValue),
    CallbackValues(Vec<ScriptValue>),
    Fail(String),
}

impl MethodDescriptor {
    /// A descriptor declares its last argument — and only its last — as a
    /// script function exactly when the method runs a callback.
    pub open spec fn takes_callback(&self) -> bool {
        self.args@.len() > 0 && self.args@[self.args@.len() - 1] == ValueKind::Fun
    }

    /// Well-formedness: every argument kind names a native value, except
    /// that the last may be a script function; results of a fixed shape are
    /// native kinds, and the callback result shape belongs exactly to the
    /// callback-accepting methods.
    pub open spec fn wf(&self) -> bool {
        &&& forall|i: int|
            0 <= i < self.args@.len() ==> {
                is_native_kind(#[trigger] self.args@[i]) || (self.args@[i] == ValueKind::Fun
                    && i == self.args@.len() - 1)
            }
        &&& match self.ret {
            ReturnShape::Unit => true,
            ReturnShape::Single(k) => is_native_kind(k),
            ReturnShape::Pair(k1, k2) => is_native_kind(k1) && is_native_kind(k2),
            ReturnShape::FromCallback => self.takes_callback(),
        }
    }

    /// The fixed arity the descriptor declares.
    pub open spec fn arity(&self) -> nat {
        self.args@.len()
    }
}

/// True when the supplied arguments fit the descriptor exactly: the count
/// equals the declared arity and every argument is of its declared kind.
pub open spec fn args_match(desc: MethodDescriptor, args: Seq<ScriptValue>) -> bool {
    &&& args.len() == desc.args@.len()
    &&& forall|i: int| 0 <= i < args.len() ==> kind_of(#[trigger] args[i]) == desc.args@[i]
}

/// The arguments of one native call after conversion: the unwrapped native
/// values in their original order, and the script function reference when
/// the method accepts a callback.
#[derive(Debug, PartialEq)]
pub struct ConvertedArgs {
    pub natives: Vec<NativeValue>,
    pub callback: Option<u64>,
}

impl ConvertedArgs {
    /// The converted list corresponds position by position to the supplied
    /// arguments: every native argument unwraps to its slot, and the
    /// trailing script function, if declared, is carried across unchanged.
    pub open spec fn corresponds(&self, desc: MethodDescriptor, args: Seq<ScriptValue>) -> bool {
        &&& if desc.takes_callback() {
            &&& self.natives@.len() + 1 == args.len()
            &&& args[args.len() - 1] matches ScriptValue::Fun(f) && self.callback == Some(f)
        } else {
            &&& self.natives@.len() == args.len()
            &&& self.callback is None
        }
        &&& forall|i: int|
            0 <= i < self.natives@.len() ==> to_native_spec(args[i], desc.args@[i]) == Ok::<
                NativeValue,
                BindingError,
            >(#[trigger] self.natives@[i])
    }
}

/// The argument-list converter of the marshalling generator.  Succeeds
/// exactly when the arguments match the descriptor's arity and kinds;
/// one argument too few or too many, or one of the wrong kind, is an
/// argument mismatch — never a crash, truncation or silent coercion.
pub fn convert_args(desc: &MethodDescriptor, args: &Vec<ScriptValue>) -> (r: Result<
    ConvertedArgs,
    BindingError,
>)
    requires
        desc.wf(),
    ensures
        r is Ok <==> args_match(*desc, args@),
        r matches Ok(c) ==> c.corresponds(*desc, args@),
        r is Err ==> r == Err::<ConvertedArgs, BindingError>(BindingError::ArgumentMismatch),
{
    if args.len() != desc.args.len() {
        return Err(BindingError::ArgumentMismatch);
    }
    let mut natives: Vec<NativeValue> = Vec::new();
    let mut callback: Option<u64> = None;
    let n = args.len();
    let mut i: usize = 0;
    while i < n
        invariant
            desc.wf(),
            n == args@.len(),
            n == desc.args@.len(),
            i <= n,
            i == n ==> !desc.takes_callback(),
            natives@.len() == i,
            callback is None,
            forall|j: int| 0 <= j < i ==> kind_of(#[trigger] args@[j]) == desc.args@[j],
            forall|j: int|
                0 <= j < i ==> to_native_spec(args@[j], desc.args@[j]) == Ok::<
                    NativeValue,
                    BindingError,
                >(#[trigger] natives@[j]),
        decreases n - i,
    {
        let declared = desc.args[i];
        if i + 1 == n {
            // The last argument may be the script callback.
            let is_fun = match declared {
                ValueKind::Fun => true,
                _ => false,
            };
            if is_fun {
                match &args[i] {
                    ScriptValue::Fun(f) => {
                        callback = Some(*f);
                        return Ok(ConvertedArgs { natives, callback });
                    },
                    _ => {
                        return Err(BindingError::ArgumentMismatch);
                    },
                }
            }
        }
        match to_native_ref(&args[i], declared) {
            Ok(native) => {
                natives.push(native);
            },
            Err(_) => {
                return Err(BindingError::ArgumentMismatch);
            },
        }
        i = i + 1;
    }
    Ok(ConvertedArgs { natives, callback })
}

/// What `convert_result` returns when the outcome fits the declared shape.
pub open spec fn result_values_spec(shape: ReturnShape, out: NativeOutcome) -> Seq<ScriptValue> {
    match out {
        NativeOutcome::Unit => Seq::empty(),
        NativeOutcome::One(n) => seq![from_native_spec(n)],
        NativeOutcome::Two(n1, n2) => seq![from_native_spec(n1), from_native_spec(n2)],
        NativeOutcome::CallbackValues(vs) => vs@,
        NativeOutcome::Fail(_) => Seq::empty(),
    }
}

/// True when the outcome of the native call has the shape the descriptor
/// declared, which the host library's fixed signatures guarantee.
pub open spec fn outcome_fits(shape: ReturnShape, out: NativeOutcome) -> bool {
    match shape {
        ReturnShape::Unit => out is Unit || out is Fail,
        ReturnShape::Single(k) => (out matches NativeOutcome::One(n) && native_kind_of(n) == k)
            || out is Fail,
        ReturnShape::Pair(k1, k2) => (out matches NativeOutcome::Two(n1, n2) && native_kind_of(n1)
            == k1 && native_kind_of(n2) == k2) || out is Fail,
        ReturnShape::FromCallback => out is CallbackValues || out is Fail,
    }
}

/// The result-shape converter of the marshalling generator.  A unit result
/// surfaces as no value, a single result as one wrapper, a pair as two
/// wrappers in declared order, and a callback result as exactly the values
/// the callback returned, in their order.  A native-call failure propagates
/// unchanged, never swallowed.
pub fn convert_result(shape: ReturnShape, out: NativeOutcome) -> (r: Result<
    Vec<ScriptValue>,
    BindingError,
>)
    requires
        outcome_fits(shape, out),
    ensures
        out matches NativeOutcome::Fail(m) ==> r == Err::<Vec<ScriptValue>, BindingError>(
            BindingError::NativeCallError(m),
        ),
        !(out is Fail) ==> (r matches Ok(vs) && vs@ == result_values_spec(shape, out)),
{
    match out {
        NativeOutcome::Fail(m) => Err(BindingError::NativeCallError(m)),
        NativeOutcome::Unit => Ok(Vec::new()),
        NativeOutcome::One(n) => {
            let mut vs: Vec<ScriptValue> = Vec::new();
            vs.push(from_native(n));
            Ok(vs)
        },
        NativeOutcome::Two(n1, n2) => {
            let mut vs: Vec<ScriptValue> = Vec::new();
            vs.push(from_native(n1));
            vs.push(from_native(n2));
            Ok(vs)
        },
        NativeOutcome::CallbackValues(vs) => Ok(vs),
    }
}

/// Calling an entry point with one argument too few or too many yields an
/// argument mismatch for every well-formed descriptor: no argument count
/// other than the declared arity ever matches.
pub proof fn lemma_wrong_arity_never_matches(desc: MethodDescriptor, args: Seq<ScriptValue>)
    requires
        args.len() != desc.arity(),
    ensures
        !args_match(desc, args),
{
}

/// A native pair surfaces to the script as exactly two values, in the
/// declared order, each of which converts back to its native half: the
/// pair crosses the boundary without loss or reordering.
pub proof fn lemma_pair_surfaces_in_order(n1: NativeValue, n2: NativeValue)
    ensures
        result_values_spec(
            ReturnShape::Pair(native_kind_of(n1), native_kind_of(n2)),
            NativeOutcome::Two(n1, n2),
        ) == seq![from_native_spec(n1), from_native_spec(n2)],
        to_native_spec(from_native_spec(n1), native_kind_of(n1)) == Ok::<
            NativeValue,
            BindingError,
        >(n1),
        to_native_spec(from_native_spec(n2), native_kind_of(n2)) == Ok::<
            NativeValue,
            BindingError,
        >(n2),
{
}

} // verus!
