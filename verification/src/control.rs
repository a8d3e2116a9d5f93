//! The control capability marker.

use vstd::prelude::*;

verus! {

/// Marker capability: the element behaves as a user-operable control. It
/// attaches no behaviour of its own.
pub trait Control {
}

} // verus!
