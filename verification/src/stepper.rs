//! The stepper facade: a numeric increment/decrement control.
//!
//! The facade composes a retained handle to one toolkit stepper object with
//! at most one callback trampoline, and pins down the discipline the
//! binding must keep: the object's target and action always point at the
//! currently installed trampoline and at nothing else, a replaced
//! trampoline is released exactly once, and teardown clears the object's
//! target and action before the handle itself is let go.

use vstd::prelude::*;

use crate::control::Control;
use crate::geometry::Rect;
use crate::invoker::TargetActionHandler;
use crate::layout::Anchors;
use crate::layout::Layout;
use crate::layout::LayoutError;
use crate::native::NativeStepper;
use crate::properties::ObjcProperty;

verus! {

/// The model address handed out for a freshly allocated stepper object.
/// Any nonzero value does; zero stands for nil.
pub const STEPPER_HANDLE: u64 = 1;

/// Where a facade stands in its life cycle. The transition is one-way:
/// a facade is live from construction until it is torn down, and no
/// operation accepts a torn-down facade again.
#[derive(Clone, Copy, Debug, PartialEq, Eq, Structural)]
pub enum Phase {
    /// The handle is valid and zero or one trampoline is installed.
    Live,
    /// The object's target and action have been cleared and the handle is
    /// about to be released.
    TornDown,
}

/// A facade over one toolkit stepper object.
#[derive(Debug)]
pub struct Stepper {
    /// A handle for the underlying toolkit object.
    pub objc: ObjcProperty,
    /// The currently installed trampoline, if any. At most one is alive
    /// per facade.
    pub handler: Option<TargetActionHandler>,
    /// Anchor references for auto-layout, present while that capability is
    /// enabled for this facade.
    pub anchors: Option<Anchors>,
    /// How many trampolines this facade has allocated so far; doubles as
    /// the source of fresh trampoline tokens.
    pub trampolines_created: u64,
    /// How many of those trampolines it has released again.
    pub trampolines_released: u64,
    /// Where the facade stands in its life cycle.
    pub phase: Phase,
}

impl Stepper {
    /// Everything construction establishes and every operation preserves.
    ///
    /// The heart of it is the back-reference discipline: the toolkit
    /// object's target and action carry the token of the currently
    /// installed trampoline and of nothing else, so the native side never
    /// points at a trampoline the facade has already released. The
    /// trampoline accounting says no trampoline leaks and none is released
    /// twice: created and released counts differ by exactly one while a
    /// trampoline is installed and agree while none is. A torn-down facade
    /// holds no trampoline at all.
    pub open spec fn wf(self) -> bool {
        &&& self.objc.handle != 0
        &&& self.trampolines_released <= self.trampolines_created
        &&& (match self.handler {
            Some(h) => {
                &&& self.phase is Live
                &&& h.token < self.trampolines_created
                &&& self.trampolines_created - self.trampolines_released == 1
                &&& self.objc.state.target == Some(h.token)
                &&& self.objc.state.action == Some(h.token)
            },
            None => {
                &&& self.trampolines_created == self.trampolines_released
                &&& self.objc.state.target is None
                &&& self.objc.state.action is None
            },
        })
        &&& (match self.anchors {
            Some(a) => a.wf_for(self.objc.handle),
            None => true,
        })
    }

    /// The facade with the observable state of its toolkit object replaced
    /// and everything of its own kept.
    pub open spec fn with_native(self, n: NativeStepper) -> Stepper {
        Stepper { objc: ObjcProperty { handle: self.objc.handle, state: n }, ..self }
    }

    /// Creates a new stepper facade with the auto-layout capability
    /// enabled, as the default configuration has it: allocates the toolkit
    /// object with a zero-sized frame, opts it out of frame-derived
    /// constraints, derives its anchor references, and retains the handle.
    pub fn new() -> (s: Stepper)
        ensures
            s.wf(),
            s.phase is Live,
            s.objc.handle != 0,
            s.anchors is Some,
            !s.objc.state.translates_autoresizing_mask,
            s.objc.state.frame == Rect::zero_spec(),
            s.objc.state.max_value_bits == 0,
            s.objc.state.min_value_bits == 0,
            s.objc.state.increment_bits == 0,
            s.objc.state.value_bits == 0,
            !s.objc.state.wraps,
            s.objc.state.target is None,
            s.objc.state.action is None,
            s.handler is None,
            s.trampolines_created == 0,
            s.trampolines_released == 0,
    {
        Stepper::new_with_autolayout(true)
    }

    /// Creates a new stepper facade, with the auto-layout capability
    /// selected by configuration: with it enabled the toolkit object opts
    /// out of frame-derived constraints and the facade exposes anchor
    /// references; with it disabled the object keeps deriving constraints
    /// from its frame and no anchors exist.
    pub fn new_with_autolayout(autolayout: bool) -> (s: Stepper)
        ensures
            s.wf(),
            s.phase is Live,
            s.objc.handle != 0,
            s.anchors is Some <==> autolayout,
            s.objc.state.translates_autoresizing_mask == !autolayout,
            s.objc.state.frame == Rect::zero_spec(),
            s.objc.state.max_value_bits == 0,
            s.objc.state.min_value_bits == 0,
            s.objc.state.increment_bits == 0,
            s.objc.state.value_bits == 0,
            !s.objc.state.wraps,
            s.objc.state.target is None,
            s.objc.state.action is None,
            s.handler is None,
            s.trampolines_created == 0,
            s.trampolines_released == 0,
    {
        let zero: Rect = Rect::zero();
        let view: NativeStepper = NativeStepper::init_with_frame(zero);
        let mut objc: ObjcProperty = ObjcProperty::retain(STEPPER_HANDLE, view);
        let anchors: Option<Anchors> = if autolayout {
            objc.clear_translates_autoresizing_mask();
            Some(Anchors::for_view(STEPPER_HANDLE))
        } else {
            None
        };
        Stepper {
            objc,
            handler: None,
            anchors,
            trampolines_created: 0,
            trampolines_released: 0,
            phase: Phase::Live,
        }
    }

    /// Attaches a callback: allocates a fresh trampoline pairing the
    /// callback with the object, wires it as the object's target/action
    /// pair, and stores it in the facade, releasing any previously
    /// installed trampoline exactly once. After the call the object points
    /// at the new trampoline only.
    ///
    /// The callback may cross a thread boundary before installation and
    /// may be invoked from a context outside the caller's control, so it
    /// must be safe to share and to call from any thread — that is what
    /// the `Send + Sync` bounds demand. Dispatch itself happens on the
    /// toolkit's event loop, outside this library.
    pub fn set_action<F: Fn(u64) + Send + Sync + 'static>(&mut self, action: F)
        requires
            old(self).wf(),
            old(self).phase is Live,
            old(self).trampolines_created < u64::MAX,
        ensures
            final(self).wf(),
            final(self).phase is Live,
            final(self).handler == Some(
                (TargetActionHandler { token: old(self).trampolines_created }),
            ),
            final(self).trampolines_created == old(self).trampolines_created + 1,
            final(self).trampolines_released == old(self).trampolines_released + (
                if old(self).handler is Some {
                    1int
                } else {
                    0int
                }
            ),
            final(self).objc.handle == old(self).objc.handle,
            final(self).objc.state == (NativeStepper {
                target: Some(old(self).trampolines_created),
                action: Some(old(self).trampolines_created),
                ..old(self).objc.state
            }),
            final(self).anchors == old(self).anchors,
    {
        let token: u64 = self.trampolines_created;
        if self.handler.is_some() {
            // The object is about to be re-wired; give the trampoline it
            // pointed at back exactly once.
            self.handler = None;
            self.trampolines_released = self.trampolines_released + 1;
        }
        self.trampolines_created = token + 1;
        self.objc.set_target_action(token);
        self.handler = Some(TargetActionHandler::new(token));
    }

    /// Sets the maximum value, handed over as the raw bits of the
    /// toolkit's floating-point value. Pure forwarding: nothing is
    /// validated locally, the toolkit owns clamping semantics.
    pub fn set_max_value(&mut self, value_bits: u64)
        requires
            old(self).wf(),
            old(self).phase is Live,
        ensures
            final(self).wf(),
            *final(self) == old(self).with_native(
                (NativeStepper { max_value_bits: value_bits, ..old(self).objc.state }),
            ),
    {
        self.objc.set_max_value_bits(value_bits);
    }

    /// Sets the minimum value, handed over as raw bits. Pure forwarding.
    pub fn set_min_value(&mut self, value_bits: u64)
        requires
            old(self).wf(),
            old(self).phase is Live,
        ensures
            final(self).wf(),
            *final(self) == old(self).with_native(
                (NativeStepper { min_value_bits: value_bits, ..old(self).objc.state }),
            ),
    {
        self.objc.set_min_value_bits(value_bits);
    }

    /// Sets the increment step, handed over as raw bits. Pure forwarding.
    pub fn set_increment(&mut self, value_bits: u64)
        requires
            old(self).wf(),
            old(self).phase is Live,
        ensures
            final(self).wf(),
            *final(self) == old(self).with_native(
                (NativeStepper { increment_bits: value_bits, ..old(self).objc.state }),
            ),
    {
        self.objc.set_increment_bits(value_bits);
    }

    /// Sets whether the value wraps around at the ends of its range. Pure
    /// forwarding.
    pub fn set_wraps(&mut self, wraps: bool)
        requires
            old(self).wf(),
            old(self).phase is Live,
        ensures
            final(self).wf(),
            *final(self) == old(self).with_native(
                (NativeStepper { wraps: wraps, ..old(self).objc.state }),
            ),
    {
        self.objc.set_wraps(wraps);
    }

    /// Records a value change observed on the toolkit object, as raw
    /// bits: the widget steps its own value on user interaction, outside
    /// any call of the facade's. After recording, `get_selected_value`
    /// reads the observed value back.
    pub fn record_observed_value(&mut self, value_bits: u64)
        requires
            old(self).wf(),
            old(self).phase is Live,
        ensures
            final(self).wf(),
            *final(self) == old(self).with_native(
                (NativeStepper { value_bits: value_bits, ..old(self).objc.state }),
            ),
    {
        self.objc.record_value_bits(value_bits);
    }

    /// Gets the currently selected value, as the raw bits of the toolkit's
    /// floating-point value. Until something sets it, it reads back as the
    /// native default of zero.
    pub fn get_selected_value(&self) -> (v: u64)
        requires
            self.wf(),
            self.phase is Live,
        ensures
            v == self.objc.state.value_bits,
    {
        let n: NativeStepper = self.objc.get();
        n.value_bits
    }

    /// Synchronized read access to the backing object: a snapshot of its
    /// observable state. Side-effect-free.
    pub fn get_from_backing_obj(&self) -> (n: NativeStepper)
        requires
            self.wf(),
            self.phase is Live,
        ensures
            n == self.objc.state,
    {
        self.objc.get()
    }

    /// Tears the facade down: clears the object's target and action back
    /// to nil and releases any trampoline still installed, before the
    /// handle itself is let go. Returns the object's observable state at
    /// the moment the facade's retained reference goes: target and action
    /// are already nil then, so the native side cannot dispatch into a
    /// freed trampoline. The transition is one-way; no operation accepts
    /// the facade afterwards.
    pub fn teardown(&mut self) -> (n: NativeStepper)
        requires
            old(self).wf(),
            old(self).phase is Live,
        ensures
            final(self).wf(),
            final(self).phase is TornDown,
            final(self).handler is None,
            final(self).trampolines_created == old(self).trampolines_created,
            final(self).trampolines_released == old(self).trampolines_released + (
                if old(self).handler is Some {
                    1int
                } else {
                    0int
                }
            ),
            final(self).objc.handle == old(self).objc.handle,
            final(self).objc.state == (NativeStepper {
                target: None,
                action: None,
                ..old(self).objc.state
            }),
            final(self).anchors == old(self).anchors,
            n == final(self).objc.state,
            !n.wired(),
    {
        self.objc.clear_target_action();
        if self.handler.is_some() {
            // The object no longer points at the trampoline; release it,
            // exactly once.
            self.handler = None;
            self.trampolines_released = self.trampolines_released + 1;
        }
        self.phase = Phase::TornDown;
        self.objc.get()
    }
}

impl Layout for Stepper {
    /// A stepper can never hold child content.
    open spec fn accepts_subviews(&self) -> bool {
        false
    }

    /// The underlying widget has no concept of child content, so asking a
    /// stepper to adopt one is a precondition violation by design, on
    /// every facade in every state: no verified call of this method
    /// exists. The body hands the violation back for the unverified
    /// boundary to abort on.
    fn add_subview<V>(&self, view: &V) -> (r: Result<(), LayoutError>) {
        Err(LayoutError::SubviewsUnsupported)
    }
}

impl Layout for &Stepper {
    /// A referenced stepper can never hold child content either.
    open spec fn accepts_subviews(&self) -> bool {
        false
    }

    /// A precondition violation, exactly as on the owned facade.
    fn add_subview<V>(&self, view: &V) -> (r: Result<(), LayoutError>) {
        Err(LayoutError::SubviewsUnsupported)
    }
}

impl Control for Stepper {
}

impl Control for &Stepper {
}

/// Law: a facade's trampoline accounting never leaks and never frees
/// twice. While a trampoline is installed, exactly one more has been
/// created than released; while none is installed, every trampoline ever
/// created has been released exactly once.
pub proof fn lemma_trampoline_accounting(s: Stepper)
    requires
        s.wf(),
    ensures
        s.handler is Some ==> s.trampolines_created - s.trampolines_released == 1,
        s.handler is None ==> s.trampolines_created == s.trampolines_released,
{
}

/// Law: the toolkit object's target and action are wired to the currently
/// installed trampoline's token and to nothing else; while no trampoline
/// is installed they are nil. The native side therefore never holds a
/// reference to a trampoline the facade has released.
pub proof fn lemma_target_points_at_live_trampoline(s: Stepper)
    requires
        s.wf(),
    ensures
        s.handler matches Some(h) ==> s.objc.state.target == Some(h.token)
            && s.objc.state.action == Some(h.token),
        s.handler is None ==> s.objc.state.target is None && s.objc.state.action is None,
{
}

/// Law: once a facade is torn down, the toolkit object it managed has nil
/// target and action, so no callback can be dispatched any more.
pub proof fn lemma_torn_down_facade_never_dispatches(s: Stepper)
    requires
        s.wf(),
        s.phase is TornDown,
    ensures
        s.objc.state.target is None,
        s.objc.state.action is None,
        !s.objc.state.wired(),
{
}

} // verus!
