//! The shared handle to the toolkit object, with synchronized access.

use vstd::prelude::*;

use crate::native::NativeStepper;

verus! {

/// A retained, shared handle to one toolkit stepper object, together with
/// the state the binding can observe through it.
///
/// Every read and every property message goes through this holder one at a
/// time: reads hand out a snapshot, mutations send exactly one message.
/// The setters validate nothing locally — the toolkit owns validation and
/// clamping semantics — they only marshal the value and forward it.
#[derive(Clone, Copy, Debug)]
pub struct ObjcProperty {
    /// The raw object address handed out at allocation; never zero for an
    /// object that was actually created.
    pub handle: u64,
    /// The observable state of the object behind the handle.
    pub state: NativeStepper,
}

impl ObjcProperty {
    /// Retains a freshly allocated object under its handle.
    pub fn retain(handle: u64, state: NativeStepper) -> (p: ObjcProperty)
        ensures
            p.handle == handle,
            p.state == state,
    {
        ObjcProperty { handle, state }
    }

    /// Synchronized read access: a snapshot of the object's observable
    /// state. Side-effect-free.
    pub fn get(&self) -> (n: NativeStepper)
        ensures
            n == self.state,
    {
        self.state
    }

    /// Sends the message that sets the maximum value, as raw bits.
    pub fn set_max_value_bits(&mut self, bits: u64)
        ensures
            final(self).handle == old(self).handle,
            final(self).state == (NativeStepper { max_value_bits: bits, ..old(self).state }),
    {
        self.state.max_value_bits = bits;
    }

    /// Sends the message that sets the minimum value, as raw bits.
    pub fn set_min_value_bits(&mut self, bits: u64)
        ensures
            final(self).handle == old(self).handle,
            final(self).state == (NativeStepper { min_value_bits: bits, ..old(self).state }),
    {
        self.state.min_value_bits = bits;
    }

    /// Sends the message that sets the increment step, as raw bits.
    pub fn set_increment_bits(&mut self, bits: u64)
        ensures
            final(self).handle == old(self).handle,
            final(self).state == (NativeStepper { increment_bits: bits, ..old(self).state }),
    {
        self.state.increment_bits = bits;
    }

    /// Sends the message that sets whether the value wraps around.
    pub fn set_wraps(&mut self, wraps: bool)
        ensures
            final(self).handle == old(self).handle,
            final(self).state == (NativeStepper { wraps: wraps, ..old(self).state }),
    {
        self.state.wraps = wraps;
    }

    /// Records the value the object reports as its current one. Nothing
    /// is sent: the object steps its own value on user interaction, and
    /// this brings the observable state up to date with what was read.
    pub fn record_value_bits(&mut self, bits: u64)
        ensures
            final(self).handle == old(self).handle,
            final(self).state == (NativeStepper { value_bits: bits, ..old(self).state }),
    {
        self.state.value_bits = bits;
    }

    /// Sends the message that opts the object out of frame-derived layout
    /// constraints.
    pub fn clear_translates_autoresizing_mask(&mut self)
        ensures
            final(self).handle == old(self).handle,
            final(self).state == (NativeStepper {
                translates_autoresizing_mask: false,
                ..old(self).state
            }),
    {
        self.state.translates_autoresizing_mask = false;
    }

    /// Wires the object's target and action to the trampoline with the
    /// given token, replacing whatever pair was wired before.
    pub fn set_target_action(&mut self, token: u64)
        ensures
            final(self).handle == old(self).handle,
            final(self).state == (NativeStepper {
                target: Some(token),
                action: Some(token),
                ..old(self).state
            }),
    {
        self.state.target = Some(token);
        self.state.action = Some(token);
    }

    /// Clears the object's target and action references back to nil, so
    /// that no callback can be dispatched any more.
    pub fn clear_target_action(&mut self)
        ensures
            final(self).handle == old(self).handle,
            final(self).state == (NativeStepper { target: None, action: None, ..old(self).state }),
    {
        self.state.target = None;
        self.state.action = None;
    }
}

} // verus!
