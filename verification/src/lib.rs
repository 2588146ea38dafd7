//! A binding layer that lets a dynamically typed embedded scripting runtime
//! drive an immediate-mode GUI library.
//!
//! The library models the marshalling core: script-visible wrapper values and
//! their conversions to and from native GUI values, method descriptors that
//! check arity and argument kinds, a generation-indexed table of borrow-scoped
//! handles for the per-frame UI context, and the registration surface that
//! builds the script-visible namespace.  The host GUI library and the script
//! interpreter themselves are consumed through their existing interfaces by
//! the surrounding application.

pub mod bridge;
pub mod descriptor;
pub mod errors;
pub mod handles;
pub mod registry;
pub mod surface;
pub mod values;
