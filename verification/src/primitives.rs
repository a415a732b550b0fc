//! Basic geometric values: points, sizes, rectangles and transforms between
//! coordinate spaces.
pub mod geometry;

use vstd::prelude::*;

verus! {

/// A point in a two-dimensional integer coordinate space.
#[derive(Clone, Copy, Debug, PartialEq, Eq, Structural)]
pub struct Point {
    pub x: i32,
    pub y: i32,
}

impl Point {
    /// Creates a point from its coordinates.
    #[must_use]
    pub fn new(x: i32, y: i32) -> (r: Self)
        ensures
            r == (Point { x, y }),
    {
        Point { x, y }
    }

    /// The origin.
    #[must_use]
    pub fn zero() -> (r: Self)
        ensures
            r == (Point { x: 0, y: 0 }),
    {
        Point { x: 0, y: 0 }
    }
}

/// A width and a height.
#[derive(Clone, Copy, Debug, PartialEq, Eq, Structural)]
pub struct Size {
    pub width: u32,
    pub height: u32,
}

impl Size {
    /// Creates a size from its dimensions.
    #[must_use]
    pub fn new(width: u32, height: u32) -> (r: Self)
        ensures
            r == (Size { width, height }),
    {
        Size { width, height }
    }
}

/// An axis-aligned rectangle given by its top-left corner and its size.
#[derive(Clone, Copy, Debug, PartialEq, Eq, Structural)]
pub struct Rectangle {
    pub origin: Point,
    pub size: Size,
}

impl Rectangle {
    /// Creates a rectangle from its origin and size.
    #[must_use]
    pub fn new(origin: Point, size: Size) -> (r: Self)
        ensures
            r == (Rectangle { origin, size }),
    {
        Rectangle { origin, size }
    }
}

/// A transform from a local coordinate space into its parent's, by an offset.
#[derive(Clone, Copy, Debug, PartialEq, Eq, Structural)]
pub struct LinearTransform {
    pub offset: Point,
}

/// A value that can be moved between coordinate spaces.
pub trait CoordinateSpaceTransform: Sized {
    /// The value expressed in the space that `transform` leads into.
    fn applying(&self, transform: &LinearTransform) -> Self;

    /// The value expressed in the space that `transform` leads out of.
    fn applying_inverse(&self, transform: &LinearTransform) -> Self;
}

} // verus!
