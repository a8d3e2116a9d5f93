//! A verified facade over a native numeric stepper widget.
//!
//! The library models the lifetime and callback-wiring discipline of a
//! toolkit binding: a shared handle to one native widget object, at most one
//! heap-allocated callback trampoline per facade, and a teardown order that
//! clears the widget's target and action references before the handle is
//! released. The toolkit itself lives outside the library; the state the
//! binding can observe through the handle is carried here as plain values.

pub mod control;
pub mod geometry;
pub mod invoker;
pub mod layout;
pub mod native;
pub mod properties;
pub mod stepper;

use vstd::prelude::*;

verus! {

} // verus!
