//! Script-visible wrapper values and their conversions to and from native
//! GUI values.
//!
//! Each native value the host GUI library produces (a color, a point, a
//! rectangle, a widget identifier, styled text, an interaction response) is
//! modelled here as a plain-value type.  A script sees such a value only
//! inside a [`ScriptValue`] wrapper; `from_native` wraps a native value and
//! `to_native` unwraps one, and both directions are total over the values
//! they accept, so the pair forms an exact round trip.

use vstd::prelude::*;

use crate::errors::BindingError;
use crate::handles::Handle;

verus! {

/// An RGBA color, one byte per channel.
#[derive(Clone, Copy, PartialEq, Eq, Structural, Debug)]
pub struct ColorValue {
    pub red: u8,
    pub green: u8,
    pub blue: u8,
    pub alpha: u8,
}

/// A point or extent in logical UI units.
#[derive(Clone, Copy, PartialEq, Eq, Structural, Debug)]
pub struct Vec2Value {
    pub x: i64,
    pub y: i64,
}

/// An axis-aligned rectangle given by its two corners.
#[derive(Clone, Copy, PartialEq, Eq, Structural, Debug)]
pub struct RectValue {
    pub min: Vec2Value,
    pub max: Vec2Value,
}

/// A widget identifier.
#[derive(Clone, Copy, PartialEq, Eq, Structural, Debug)]
pub struct IdValue {
    pub raw: u64,
}

/// A piece of styled text, the model of the host library's rich-text value.
#[derive(Clone, Debug, PartialEq)]
pub struct TextValue {
    pub text: String,
    pub strong: bool,
}

/// The outcome of one widget interaction: which widget it concerns and what
/// the pointer did to it this frame.
#[derive(Clone, Copy, PartialEq, Eq, Structural, Debug)]
pub struct ResponseValue {
    pub widget: IdValue,
    pub clicked: bool,
    pub hovered: bool,
    pub changed: bool,
}

/// A native value as the marshalling layer hands it to, or receives it from,
/// the host GUI library.
#[derive(Clone, Debug, PartialEq)]
pub enum NativeValue {
    Bool(bool),
    Int(i64),
    Str(String),
    Color(ColorValue),
    Vec2(Vec2Value),
    Rect(RectValue),
    Id(IdValue),
    Text(TextValue),
    Response(ResponseValue),
}

/// A dynamically typed value as the scripting runtime sees it: either a
/// primitive of the runtime itself, a wrapper around one native value, a
/// borrow-scoped handle, or a reference to a script function.
#[derive(Clone, Debug, PartialEq)]
pub enum ScriptValue {
    Nil,
    Bool(bool),
    Int(i64),
    Str(String),
    Color(ColorValue),
    Vec2(Vec2Value),
    Rect(RectValue),
    Id(IdValue),
    Text(TextValue),
    Response(ResponseValue),
    UiHandle(Handle),
    Fun(u64),
}

impl Default for ColorValue {
    /// The zero-value default exposed to scripts: fully transparent black.
    fn default() -> (c: ColorValue)
        ensures
            c.red == 0 && c.green == 0 && c.blue == 0 && c.alpha == 0,
    {
        ColorValue { red: 0, green: 0, blue: 0, alpha: 0 }
    }
}

impl Default for Vec2Value {
    /// The zero-value default exposed to scripts: the origin.
    fn default() -> (v: Vec2Value)
        ensures
            v.x == 0 && v.y == 0,
    {
        Vec2Value { x: 0, y: 0 }
    }
}

/// The kind tag a method descriptor declares for an argument or result.
#[derive(Clone, Copy, PartialEq, Eq, Structural, Debug)]
pub enum ValueKind {
    Nil,
    Bool,
    Int,
    Str,
    Color,
    Vec2,
    Rect,
    Id,
    Text,
    Response,
    UiHandle,
    Fun,
}

/// The kind of a script value.
pub open spec fn kind_of(v: ScriptValue) -> ValueKind {
    match v {
        ScriptValue::Nil => ValueKind::Nil,
        ScriptValue::Bool(_) => ValueKind::Bool,
        ScriptValue::Int(_) => ValueKind::Int,
        ScriptValue::Str(_) => ValueKind::Str,
        ScriptValue::Color(_) => ValueKind::Color,
        ScriptValue::Vec2(_) => ValueKind::Vec2,
        ScriptValue::Rect(_) => ValueKind::Rect,
        ScriptValue::Id(_) => ValueKind::Id,
        ScriptValue::Text(_) => ValueKind::Text,
        ScriptValue::Response(_) => ValueKind::Response,
        ScriptValue::UiHandle(_) => ValueKind::UiHandle,
        ScriptValue::Fun(_) => ValueKind::Fun,
    }
}

/// The kind of the wrapper a native value is presented under.
pub open spec fn native_kind_of(n: NativeValue) -> ValueKind {
    match n {
        NativeValue::Bool(_) => ValueKind::Bool,
        NativeValue::Int(_) => ValueKind::Int,
        NativeValue::Str(_) => ValueKind::Str,
        NativeValue::Color(_) => ValueKind::Color,
        NativeValue::Vec2(_) => ValueKind::Vec2,
        NativeValue::Rect(_) => ValueKind::Rect,
        NativeValue::Id(_) => ValueKind::Id,
        NativeValue::Text(_) => ValueKind::Text,
        NativeValue::Response(_) => ValueKind::Response,
    }
}

/// True of the kinds that name a native value, as opposed to the runtime's
/// own nil, handles and functions, which never cross into the host library.
pub open spec fn is_native_kind(k: ValueKind) -> bool {
    match k {
        ValueKind::Nil => false,
        ValueKind::UiHandle => false,
        ValueKind::Fun => false,
        _ => true,
    }
}

/// What `from_native` returns: the wrapper carrying exactly the given
/// native value.
pub open spec fn from_native_spec(n: NativeValue) -> ScriptValue {
    match n {
        NativeValue::Bool(b) => ScriptValue::Bool(b),
        NativeValue::Int(i) => ScriptValue::Int(i),
        NativeValue::Str(s) => ScriptValue::Str(s),
        NativeValue::Color(c) => ScriptValue::Color(c),
        NativeValue::Vec2(v) => ScriptValue::Vec2(v),
        NativeValue::Rect(r) => ScriptValue::Rect(r),
        NativeValue::Id(i) => ScriptValue::Id(i),
        NativeValue::Text(t) => ScriptValue::Text(t),
        NativeValue::Response(r) => ScriptValue::Response(r),
    }
}

/// What `to_native` returns: the native value inside the wrapper when the
/// wrapper is of the declared kind, and an argument mismatch otherwise.
pub open spec fn to_native_spec(v: ScriptValue, k: ValueKind) -> Result<NativeValue, BindingError> {
    if kind_of(v) == k {
        match v {
            ScriptValue::Bool(b) => Ok(NativeValue::Bool(b)),
            ScriptValue::Int(i) => Ok(NativeValue::Int(i)),
            ScriptValue::Str(s) => Ok(NativeValue::Str(s)),
            ScriptValue::Color(c) => Ok(NativeValue::Color(c)),
            ScriptValue::Vec2(v2) => Ok(NativeValue::Vec2(v2)),
            ScriptValue::Rect(r) => Ok(NativeValue::Rect(r)),
            ScriptValue::Id(i) => Ok(NativeValue::Id(i)),
            ScriptValue::Text(t) => Ok(NativeValue::Text(t)),
            ScriptValue::Response(r) => Ok(NativeValue::Response(r)),
            _ => Err(BindingError::ArgumentMismatch),
        }
    } else {
        Err(BindingError::ArgumentMismatch)
    }
}

/// Wraps a native value for the scripting runtime.  Always succeeds: the
/// wrapper carries the value itself.
pub fn from_native(n: NativeValue) -> (v: ScriptValue)
    ensures
        v == from_native_spec(n),
{
    match n {
        NativeValue::Bool(b) => ScriptValue::Bool(b),
        NativeValue::Int(i) => ScriptValue::Int(i),
        NativeValue::Str(s) => ScriptValue::Str(s),
        NativeValue::Color(c) => ScriptValue::Color(c),
        NativeValue::Vec2(v2) => ScriptValue::Vec2(v2),
        NativeValue::Rect(r) => ScriptValue::Rect(r),
        NativeValue::Id(i) => ScriptValue::Id(i),
        NativeValue::Text(t) => ScriptValue::Text(t),
        NativeValue::Response(r) => ScriptValue::Response(r),
    }
}

/// Unwraps a script value declared to be of kind `k`.  Succeeds exactly when
/// the value is a wrapper of that kind; a wrong kind is an argument
/// mismatch, never a silent coercion.
pub fn to_native(v: ScriptValue, k: ValueKind) -> (r: Result<NativeValue, BindingError>)
    ensures
        r == to_native_spec(v, k),
{
    let actual = kind(&v);
    if actual == k {
        match v {
            ScriptValue::Bool(b) => Ok(NativeValue::Bool(b)),
            ScriptValue::Int(i) => Ok(NativeValue::Int(i)),
            ScriptValue::Str(s) => Ok(NativeValue::Str(s)),
            ScriptValue::Color(c) => Ok(NativeValue::Color(c)),
            ScriptValue::Vec2(v2) => Ok(NativeValue::Vec2(v2)),
            ScriptValue::Rect(r2) => Ok(NativeValue::Rect(r2)),
            ScriptValue::Id(i) => Ok(NativeValue::Id(i)),
            ScriptValue::Text(t) => Ok(NativeValue::Text(t)),
            ScriptValue::Response(r2) => Ok(NativeValue::Response(r2)),
            _ => Err(BindingError::ArgumentMismatch),
        }
    } else {
        Err(BindingError::ArgumentMismatch)
    }
}

/// The reference form of `to_native`, with clone semantics: script call
/// sites frequently pass the same wrapper to several native calls in
/// sequence, so unwrapping must not consume the wrapper.
pub fn to_native_ref(v: &ScriptValue, k: ValueKind) -> (r: Result<NativeValue, BindingError>)
    ensures
        r == to_native_spec(*v, k),
{
    let actual = kind(v);
    if actual == k {
        match v {
            ScriptValue::Bool(b) => Ok(NativeValue::Bool(*b)),
            ScriptValue::Int(i) => Ok(NativeValue::Int(*i)),
            ScriptValue::Str(s) => Ok(NativeValue::Str(s.clone())),
            ScriptValue::Color(c) => Ok(NativeValue::Color(*c)),
            ScriptValue::Vec2(v2) => Ok(NativeValue::Vec2(*v2)),
            ScriptValue::Rect(r2) => Ok(NativeValue::Rect(*r2)),
            ScriptValue::Id(i) => Ok(NativeValue::Id(*i)),
            ScriptValue::Text(t) => Ok(
                NativeValue::Text(TextValue { text: t.text.clone(), strong: t.strong }),
            ),
            ScriptValue::Response(r2) => Ok(NativeValue::Response(*r2)),
            _ => Err(BindingError::ArgumentMismatch),
        }
    } else {
        Err(BindingError::ArgumentMismatch)
    }
}

/// The kind tag of a script value.
pub fn kind(v: &ScriptValue) -> (k: ValueKind)
    ensures
        k == kind_of(*v),
{
    match v {
        ScriptValue::Nil => ValueKind::Nil,
        ScriptValue::Bool(_) => ValueKind::Bool,
        ScriptValue::Int(_) => ValueKind::Int,
        ScriptValue::Str(_) => ValueKind::Str,
        ScriptValue::Color(_) => ValueKind::Color,
        ScriptValue::Vec2(_) => ValueKind::Vec2,
        ScriptValue::Rect(_) => ValueKind::Rect,
        ScriptValue::Id(_) => ValueKind::Id,
        ScriptValue::Text(_) => ValueKind::Text,
        ScriptValue::Response(_) => ValueKind::Response,
        ScriptValue::UiHandle(_) => ValueKind::UiHandle,
        ScriptValue::Fun(_) => ValueKind::Fun,
    }
}

/// Unwrapping a freshly wrapped native value gives that value back: the
/// conversions are exact inverses on the wrapped side.
pub proof fn lemma_to_native_inverts_from_native(n: NativeValue)
    ensures
        to_native_spec(from_native_spec(n), native_kind_of(n)) == Ok::<NativeValue, BindingError>(n),
{
}

/// Round-trip idempotence: for every native value, wrapping, unwrapping and
/// wrapping again yields the same wrapper as wrapping once.
pub proof fn lemma_round_trip_idempotent(n: NativeValue)
    ensures
        to_native_spec(from_native_spec(n), native_kind_of(n)) matches Ok(m)
            && from_native_spec(m) == from_native_spec(n),
{
}

} // verus!
