use vstd::prelude::*;

verus! {

/// Headless widget that implements the interaction logic shared by numeric and
/// discrete spinboxes. It has no visuals of its own.
#[derive(Debug, Clone, Copy, PartialEq, Eq, Structural)]
pub struct Spinbox {
    /// When `true`, values that leave the range wrap around instead of clamping.
    pub wrap: bool,
}

impl Default for Spinbox {
    /// A spinbox clamps by default.
    fn default() -> (s: Self)
        ensures
            !s.wrap,
    {
        Spinbox { wrap: false }
    }
}

/// How a value that leaves the range is brought back into it.
#[derive(Debug, Clone, Copy, PartialEq, Eq, Structural)]
pub enum RangePolicy {
    /// The value wraps around to the other end of the range.
    Wrap,
    /// The value is clamped to the nearest end of the range.
    Clamp,
}

impl Spinbox {
    /// The policy applied to a new value: wrapping when `wrap` is set, clamping otherwise.
    pub fn range_policy(&self) -> (p: RangePolicy)
        ensures
            p == (if self.wrap { RangePolicy::Wrap } else { RangePolicy::Clamp }),
    {
        if self.wrap {
            RangePolicy::Wrap
        } else {
            RangePolicy::Clamp
        }
    }
}

/// Optional component: the number of decimal places to which a spinbox value is
/// rounded during interactions.
#[derive(Debug, Clone, Copy, PartialEq, Eq, Structural)]
pub struct SpinboxPrecision(pub i32);

impl Default for SpinboxPrecision {
    /// Rounds to whole numbers.
    fn default() -> (p: Self)
        ensures
            p.0 == 0,
    {
        SpinboxPrecision(0)
    }
}

/// Tracks whether a spinbox is being dragged.
#[derive(Debug, Clone, Copy, PartialEq, Eq, Structural)]
pub struct SpinboxDragState {
    /// Whether the spinbox is currently being dragged.
    pub dragging: bool,
}

impl Default for SpinboxDragState {
    /// A spinbox starts out not being dragged.
    fn default() -> (s: Self)
        ensures
            !s.dragging,
    {
        SpinboxDragState { dragging: false }
    }
}

/// Marker for the plugin that registers the spinbox observers.
#[derive(Debug, Clone, Copy, PartialEq, Eq, Structural)]
pub struct SpinboxPlugin;

} // verus!
