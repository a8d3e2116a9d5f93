//! A model of the toolkit-side stepper object.
//!
//! The real widget lives inside the operating system's toolkit and is only
//! reachable over a foreign-function boundary. What the binding relies on is
//! the small observable state behind that boundary: the numeric properties
//! it forwards, the frame it allocated with, the constraint-translation
//! flag, and the target/action pair it wires for callbacks. That state is
//! carried here as plain values so the binding's discipline around it can be
//! verified.

use vstd::prelude::*;

use crate::geometry::Rect;

verus! {

/// The observable state of one toolkit stepper object.
///
/// Numeric properties are the raw bit patterns of the toolkit's
/// double-precision values: the binding forwards them untouched and never
/// computes with them. `target` and `action` carry the token of the
/// trampoline the object would dispatch to, or `None` where the reference
/// has been cleared to nil.
#[derive(Clone, Copy, Debug)]
pub struct NativeStepper {
    /// The frame the object was allocated with.
    pub frame: Rect,
    /// Whether the object still derives layout constraints from its frame.
    /// On until the binding opts the object out of it.
    pub translates_autoresizing_mask: bool,
    /// Bit pattern of the maximum value property.
    pub max_value_bits: u64,
    /// Bit pattern of the minimum value property.
    pub min_value_bits: u64,
    /// Bit pattern of the increment-step property.
    pub increment_bits: u64,
    /// Bit pattern of the current value.
    pub value_bits: u64,
    /// Whether the value wraps around at the ends of its range.
    pub wraps: bool,
    /// Token of the trampoline installed as the object's target, or `None`
    /// where the target reference is nil.
    pub target: Option<u64>,
    /// Token paired as the object's action, or `None` where the action
    /// reference is nil.
    pub action: Option<u64>,
}

impl NativeStepper {
    /// Whether a user interaction on the object would be dispatched
    /// anywhere: the object sends its action only while both a target and
    /// an action are wired.
    pub open spec fn wired(self) -> bool {
        self.target is Some && self.action is Some
    }

    /// A freshly initialised stepper object with the given frame: the value
    /// reads back as zero, no target or action is wired, and the object
    /// still derives constraints from its frame. The other properties start
    /// at the model's zero defaults until a setter forwards something else.
    pub fn init_with_frame(frame: Rect) -> (n: NativeStepper)
        ensures
            n.frame == frame,
            n.translates_autoresizing_mask,
            n.max_value_bits == 0,
            n.min_value_bits == 0,
            n.increment_bits == 0,
            n.value_bits == 0,
            !n.wraps,
            n.target is None,
            n.action is None,
    {
        NativeStepper {
            frame,
            translates_autoresizing_mask: true,
            max_value_bits: 0,
            min_value_bits: 0,
            increment_bits: 0,
            value_bits: 0,
            wraps: false,
            target: None,
            action: None,
        }
    }

    /// Whether a user interaction would currently reach a trampoline.
    pub fn is_wired(&self) -> (b: bool)
        ensures
            b == self.wired(),
    {
        self.target.is_some() && self.action.is_some()
    }
}

} // verus!
