//! The empty shape.
use vstd::prelude::*;

use crate::primitives::{CoordinateSpaceTransform, LinearTransform, Point, Rectangle, Size};

use super::{PathEl, Shape};

verus! {

/// A zero-sized type representing the absence of a shape.
///
/// This is useful for `ContentShape` implementations that have no intrinsic shape,
/// avoiding the overhead of `Option<WastedBytesHere>`.
#[derive(Clone, Copy, Debug, PartialEq, Eq, Structural)]
pub struct NoShape;

impl Default for NoShape {
    fn default() -> (r: Self)
        ensures
            r == NoShape,
    {
        NoShape
    }
}

impl CoordinateSpaceTransform for NoShape {
    fn applying(&self, _transform: &LinearTransform) -> (r: Self)
        ensures
            r == NoShape,
    {
        NoShape
    }

    fn applying_inverse(&self, _transform: &LinearTransform) -> (r: Self)
        ensures
            r == NoShape,
    {
        NoShape
    }
}

impl Shape for NoShape {
    /// The empty path.
    open spec fn path_spec(&self, tolerance: u16) -> Seq<PathEl> {
        seq![]
    }

    /// The empty rectangle at the origin.
    open spec fn bounding_box_spec(&self) -> Rectangle {
        Rectangle { origin: Point { x: 0, y: 0 }, size: Size { width: 0, height: 0 } }
    }

    fn path_elements(&self, _tolerance: u16) -> (r: Vec<PathEl>) {
        Vec::new()
    }

    fn bounding_box(&self) -> (r: Rectangle) {
        // This is sort of meaningless...
        Rectangle::new(Point::new(0, 0), Size::new(0, 0))
    }
}

} // verus!
