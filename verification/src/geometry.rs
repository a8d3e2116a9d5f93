//! Rectangles as the toolkit takes them.

use vstd::prelude::*;

verus! {

/// A rectangle handed to the toolkit at allocation time.
///
/// The toolkit measures in double-precision coordinates; the binding never
/// computes with them, it only forwards them, so each component is carried
/// as the raw bit pattern of the toolkit's value.
#[derive(Clone, Copy, Debug, PartialEq, Eq, Structural)]
pub struct Rect {
    /// Bit pattern of the horizontal origin.
    pub x_bits: u64,
    /// Bit pattern of the vertical origin.
    pub y_bits: u64,
    /// Bit pattern of the width.
    pub width_bits: u64,
    /// Bit pattern of the height.
    pub height_bits: u64,
}

impl Rect {
    /// The zero-sized rectangle at the origin: every component is the bit
    /// pattern of zero.
    pub open spec fn zero_spec() -> Rect {
        Rect { x_bits: 0, y_bits: 0, width_bits: 0, height_bits: 0 }
    }

    /// Returns the zero-sized rectangle at the origin.
    pub fn zero() -> (r: Rect)
        ensures
            r == Rect::zero_spec(),
    {
        Rect { x_bits: 0, y_bits: 0, width_bits: 0, height_bits: 0 }
    }
}

} // verus!
