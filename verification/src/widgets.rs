//! Widget-level kinds: the viewport's size class and orientation, the easing curves
//! of the built-in animations and how a child subtree is traversed.
use vstd::prelude::*;

verus! {

/// Size class of the viewport, by its logical width.
#[derive(Clone, Copy, Debug, PartialEq, Eq, Structural)]
pub enum ViewportClass {
    Desktop,
    Tablet,
    Mobile,
}

impl Default for ViewportClass {
    fn default() -> (r: Self)
        ensures
            r == ViewportClass::Desktop,
    {
        ViewportClass::Desktop
    }
}

/// Orientation of the viewport.
#[derive(Clone, Copy, Debug, PartialEq, Eq, Structural)]
pub enum ViewportOrientation {
    Landscape,
    Portrait,
}

impl Default for ViewportOrientation {
    fn default() -> (r: Self)
        ensures
            r == ViewportOrientation::Landscape,
    {
        ViewportOrientation::Landscape
    }
}

/// Easing functions supported by the built-in animation helpers.
#[derive(Clone, Copy, Debug, PartialEq, Eq, Structural)]
pub enum AnimationEasing {
    Linear,
    EaseIn,
    EaseOut,
    EaseInOut,
}

/// Runtime traversal mode for a widget child subtree.
#[derive(Clone, Copy, Debug, PartialEq, Eq, Structural)]
pub enum WidgetChildMode {
    /// Laid out, painted and sent events.
    Active,
    /// Painted only.
    PaintOnly,
}

} // verus!
