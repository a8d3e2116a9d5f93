//! The layout capability: taking part in the toolkit's auto-layout system.

use vstd::prelude::*;

verus! {

/// Why a layout request was refused.
#[derive(Clone, Copy, Debug, PartialEq, Eq, Structural)]
pub enum LayoutError {
    /// The element cannot hold child content at all. Asking it to adopt a
    /// child is a precondition violation by design, not a missing feature.
    SubviewsUnsupported,
}

/// Which constraint of the owning object an anchor refers to.
#[derive(Clone, Copy, Debug, PartialEq, Eq, Structural)]
pub enum AnchorKind {
    Top,
    Leading,
    Left,
    Trailing,
    Right,
    Bottom,
    Width,
    Height,
    CenterX,
    CenterY,
}

/// A pass-through reference to one horizontal constraint of a view.
#[derive(Clone, Copy, Debug, PartialEq, Eq, Structural)]
pub struct LayoutAnchorX {
    /// Handle of the view the constraint belongs to.
    pub view: u64,
    /// Which horizontal constraint it is.
    pub kind: AnchorKind,
}

/// A pass-through reference to one vertical constraint of a view.
#[derive(Clone, Copy, Debug, PartialEq, Eq, Structural)]
pub struct LayoutAnchorY {
    /// Handle of the view the constraint belongs to.
    pub view: u64,
    /// Which vertical constraint it is.
    pub kind: AnchorKind,
}

/// A pass-through reference to one dimensional constraint of a view.
#[derive(Clone, Copy, Debug, PartialEq, Eq, Structural)]
pub struct LayoutAnchorDimension {
    /// Handle of the view the constraint belongs to.
    pub view: u64,
    /// Which dimension it is.
    pub kind: AnchorKind,
}

impl LayoutAnchorX {
    /// The left-edge constraint of the given view.
    pub fn left(view: u64) -> (a: LayoutAnchorX)
        ensures
            a == (LayoutAnchorX { view, kind: AnchorKind::Left }),
    {
        LayoutAnchorX { view, kind: AnchorKind::Left }
    }

    /// The leading-edge constraint of the given view.
    pub fn leading(view: u64) -> (a: LayoutAnchorX)
        ensures
            a == (LayoutAnchorX { view, kind: AnchorKind::Leading }),
    {
        LayoutAnchorX { view, kind: AnchorKind::Leading }
    }

    /// The right-edge constraint of the given view.
    pub fn right(view: u64) -> (a: LayoutAnchorX)
        ensures
            a == (LayoutAnchorX { view, kind: AnchorKind::Right }),
    {
        LayoutAnchorX { view, kind: AnchorKind::Right }
    }

    /// The trailing-edge constraint of the given view.
    pub fn trailing(view: u64) -> (a: LayoutAnchorX)
        ensures
            a == (LayoutAnchorX { view, kind: AnchorKind::Trailing }),
    {
        LayoutAnchorX { view, kind: AnchorKind::Trailing }
    }

    /// The horizontal-center constraint of the given view.
    pub fn center(view: u64) -> (a: LayoutAnchorX)
        ensures
            a == (LayoutAnchorX { view, kind: AnchorKind::CenterX }),
    {
        LayoutAnchorX { view, kind: AnchorKind::CenterX }
    }
}

impl LayoutAnchorY {
    /// The top-edge constraint of the given view.
    pub fn top(view: u64) -> (a: LayoutAnchorY)
        ensures
            a == (LayoutAnchorY { view, kind: AnchorKind::Top }),
    {
        LayoutAnchorY { view, kind: AnchorKind::Top }
    }

    /// The bottom-edge constraint of the given view.
    pub fn bottom(view: u64) -> (a: LayoutAnchorY)
        ensures
            a == (LayoutAnchorY { view, kind: AnchorKind::Bottom }),
    {
        LayoutAnchorY { view, kind: AnchorKind::Bottom }
    }

    /// The vertical-center constraint of the given view.
    pub fn center(view: u64) -> (a: LayoutAnchorY)
        ensures
            a == (LayoutAnchorY { view, kind: AnchorKind::CenterY }),
    {
        LayoutAnchorY { view, kind: AnchorKind::CenterY }
    }
}

impl LayoutAnchorDimension {
    /// The width constraint of the given view.
    pub fn width(view: u64) -> (a: LayoutAnchorDimension)
        ensures
            a == (LayoutAnchorDimension { view, kind: AnchorKind::Width }),
    {
        LayoutAnchorDimension { view, kind: AnchorKind::Width }
    }

    /// The height constraint of the given view.
    pub fn height(view: u64) -> (a: LayoutAnchorDimension)
        ensures
            a == (LayoutAnchorDimension { view, kind: AnchorKind::Height }),
    {
        LayoutAnchorDimension { view, kind: AnchorKind::Height }
    }
}

/// The anchor references a facade exposes while the auto-layout capability
/// is enabled: one per positional and dimensional constraint of its view.
#[derive(Clone, Copy, Debug)]
pub struct Anchors {
    /// Top-edge anchor.
    pub top: LayoutAnchorY,
    /// Leading-edge anchor.
    pub leading: LayoutAnchorX,
    /// Left-edge anchor.
    pub left: LayoutAnchorX,
    /// Trailing-edge anchor.
    pub trailing: LayoutAnchorX,
    /// Right-edge anchor.
    pub right: LayoutAnchorX,
    /// Bottom-edge anchor.
    pub bottom: LayoutAnchorY,
    /// Width anchor.
    pub width: LayoutAnchorDimension,
    /// Height anchor.
    pub height: LayoutAnchorDimension,
    /// Horizontal-center anchor.
    pub center_x: LayoutAnchorX,
    /// Vertical-center anchor.
    pub center_y: LayoutAnchorY,
}

impl Anchors {
    /// All ten anchors refer to the view with the given handle, each to the
    /// constraint its name says.
    pub open spec fn wf_for(self, view: u64) -> bool {
        &&& self.top == (LayoutAnchorY { view, kind: AnchorKind::Top })
        &&& self.leading == (LayoutAnchorX { view, kind: AnchorKind::Leading })
        &&& self.left == (LayoutAnchorX { view, kind: AnchorKind::Left })
        &&& self.trailing == (LayoutAnchorX { view, kind: AnchorKind::Trailing })
        &&& self.right == (LayoutAnchorX { view, kind: AnchorKind::Right })
        &&& self.bottom == (LayoutAnchorY { view, kind: AnchorKind::Bottom })
        &&& self.width == (LayoutAnchorDimension { view, kind: AnchorKind::Width })
        &&& self.height == (LayoutAnchorDimension { view, kind: AnchorKind::Height })
        &&& self.center_x == (LayoutAnchorX { view, kind: AnchorKind::CenterX })
        &&& self.center_y == (LayoutAnchorY { view, kind: AnchorKind::CenterY })
    }

    /// Derives the full anchor set of the view with the given handle.
    pub fn for_view(view: u64) -> (a: Anchors)
        ensures
            a.wf_for(view),
    {
        Anchors {
            top: LayoutAnchorY::top(view),
            leading: LayoutAnchorX::leading(view),
            left: LayoutAnchorX::left(view),
            trailing: LayoutAnchorX::trailing(view),
            right: LayoutAnchorX::right(view),
            bottom: LayoutAnchorY::bottom(view),
            width: LayoutAnchorDimension::width(view),
            height: LayoutAnchorDimension::height(view),
            center_x: LayoutAnchorX::center(view),
            center_y: LayoutAnchorY::center(view),
        }
    }
}

/// The layout capability: an element that takes part in the auto-layout
/// system and may be asked to adopt child content.
pub trait Layout: Sized {
    /// Whether this element can hold child elements at all.
    spec fn accepts_subviews(&self) -> bool;

    /// Asks the element to adopt `view` as child content. Only an element
    /// that can hold children may be asked: on any other element the call
    /// is a precondition violation, so no verified caller can make it.
    /// An unverified caller that makes it anyway gets the error back and
    /// must fail loudly with it — the request is never silently ignored.
    fn add_subview<V>(&self, view: &V) -> (r: Result<(), LayoutError>)
        requires
            self.accepts_subviews(),
        ensures
            r is Ok <==> self.accepts_subviews(),
            !self.accepts_subviews() ==> r == Err::<(), LayoutError>(
                LayoutError::SubviewsUnsupported,
            ),
    ;
}

} // verus!
