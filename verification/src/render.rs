//! Render trees: animation of subtrees, transitions of views that come and
//! go, and the shapes of rendered content.
use vstd::prelude::*;

use crate::primitives::{Rectangle, Size};

verus! {

/// The easing of an animation.
#[derive(Clone, Copy, Debug, PartialEq, Eq, Structural)]
pub enum Curve {
    Linear,
    EaseIn,
    EaseOut,
    EaseInOut,
}

/// An animation: how long it runs and how it eases.
#[derive(Clone, Copy, Debug, PartialEq, Eq, Structural)]
pub struct Animation {
    pub duration_ms: u64,
    pub curve: Curve,
}

impl Animation {
    /// An animation that eases out over `duration_ms` milliseconds.
    #[must_use]
    pub fn ease_out(duration_ms: u64) -> (r: Self)
        ensures
            r == (Animation { duration_ms, curve: Curve::EaseOut }),
    {
        Animation { duration_ms, curve: Curve::EaseOut }
    }
}

/// A subtree animated whenever `value` changes.
#[derive(Clone, Debug, PartialEq, Eq)]
pub struct Animate<T, V> {
    pub subtree: T,
    pub animation: Animation,
    /// The application time (milliseconds) at which the frame was rendered.
    pub frame_time_ms: u64,
    pub value: V,
}

impl<T, V> Animate<T, V> {
    /// Animates `subtree` with `animation` when `value` changes.
    #[must_use]
    pub fn new(subtree: T, animation: Animation, frame_time_ms: u64, value: V) -> (r: Self)
        ensures
            r == (Animate { subtree, animation, frame_time_ms, value }),
    {
        Animate { subtree, animation, frame_time_ms, value }
    }
}

/// A subtree that may be absent, with the transition it comes and goes with.
#[derive(Clone, Debug, PartialEq, Eq)]
pub enum TransitionOption<T, Tr> {
    /// The subtree is shown, in a frame of `size`.
    Present { subtree: T, size: Size, transition: Tr },
    /// Nothing is shown.
    Absent,
}

impl<T, Tr> TransitionOption<T, Tr> {
    /// A shown subtree in a frame of `size`, coming and going with `transition`.
    #[must_use]
    pub fn new_some(subtree: T, size: Size, transition: Tr) -> (r: Self)
        ensures
            r == (TransitionOption::Present { subtree, size, transition }),
    {
        TransitionOption::Present { subtree, size, transition }
    }
}

/// The transition of a view that fades in and out.
#[derive(Clone, Copy, Debug, PartialEq, Eq, Structural)]
pub struct Opacity;

/// The shape that rendered content occupies.
#[derive(Clone, Copy, Debug, PartialEq, Eq, Structural)]
pub enum ContentShape {
    /// No shape.
    Empty,
    /// A rectangle.
    Rectangle(Rectangle),
}

/// Rendered content that knows its shape.
pub trait IntrinsicShape {
    /// The shape the content occupies.
    fn content_shape(&self) -> ContentShape;
}

} // verus!
