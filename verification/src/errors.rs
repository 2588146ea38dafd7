//! The error taxonomy of the binding layer.

use vstd::prelude::*;

verus! {

/// Every failure the marshalling boundary can surface to script code or to
/// the embedding application.
#[derive(Clone, Debug, PartialEq, Eq)]
pub enum BindingError {
    /// A script supplied the wrong number of arguments, or an argument of the
    /// wrong kind, to a marshalled method.
    ArgumentMismatch,
    /// A mutating call was made on a handle whose exclusive borrow is already
    /// held elsewhere.
    ExclusiveAccessViolation,
    /// The underlying native GUI call itself signalled an error; the message
    /// is passed through unchanged.
    NativeCallError(String),
    /// A handle was used outside the callback invocation it was created for.
    ScopeEscape,
    /// Installing the bindings failed, for example because a name was already
    /// taken; fatal at startup.
    RegistrationError,
    /// The script callback itself raised an error; it is propagated to the
    /// caller of the enclosing call, never swallowed.
    ScriptRaised(String),
}

} // verus!
