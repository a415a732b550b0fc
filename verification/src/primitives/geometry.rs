//! Shapes described as Bézier paths, and the line segments that are drawn
//! for a path.
mod no_shape;

pub use no_shape::NoShape;

use vstd::prelude::*;

use super::{CoordinateSpaceTransform, LinearTransform, Point, Rectangle};

verus! {

/// The element of a Bézier path.
///
/// A valid path has `MoveTo` at the beginning of each subpath.
#[derive(Clone, Copy, Debug, PartialEq, Eq, Structural)]
pub enum PathEl {
    /// Move directly to the point without drawing anything, starting a new
    /// subpath.
    MoveTo(Point),
    /// Draw a line from the current location to the point.
    LineTo(Point),
    /// Draw a quadratic bezier using the current location and the two points.
    QuadTo(Point, Point),
    /// Draw a cubic bezier using the current location and the three points.
    CurveTo(Point, Point, Point),
    /// Close off the path.
    ClosePath,
}

/// A shape that can describe itself as a path and give its bounds.
pub trait Shape: CoordinateSpaceTransform {
    /// The path of the shape, approximated to within `tolerance`.
    spec fn path_spec(&self, tolerance: u16) -> Seq<PathEl>;

    /// The smallest rectangle that encloses the shape.
    spec fn bounding_box_spec(&self) -> Rectangle;

    /// The elements of the shape's path, in drawing order.
    fn path_elements(&self, tolerance: u16) -> (r: Vec<PathEl>)
        ensures
            r@ == self.path_spec(tolerance),
    ;

    /// The smallest rectangle that encloses the shape.
    fn bounding_box(&self) -> (r: Rectangle)
        ensures
            r == self.bounding_box_spec(),
    ;

    /// If the shape is a rectangle, make it available.
    fn as_rect(&self) -> (r: Option<Rectangle>)
        default_ensures
            r is None,
    {
        None
    }
}

/// A fixed list of path elements handed out one at a time, in order.
#[derive(Clone, Debug, PartialEq, Eq)]
pub struct ShapePathIter<const N: usize> {
    elements: [PathEl; N],
    index: usize,
}

impl<const N: usize> ShapePathIter<N> {
    /// All the elements, in order.
    pub closed spec fn elements(&self) -> Seq<PathEl> {
        self.elements@
    }

    /// How many elements have been handed out.
    pub closed spec fn position(&self) -> usize {
        self.index
    }

    /// The elements not yet handed out.
    pub open spec fn remaining(&self) -> Seq<PathEl> {
        if self.position() <= N {
            self.elements().subrange(self.position() as int, N as int)
        } else {
            seq![]
        }
    }

    /// The element count of a path iterator is its length.
    pub proof fn lemma_elements_len(&self)
        ensures
            self.elements().len() == N,
    {
    }

    /// A path iterator positioned before the first element.
    #[must_use]
    pub fn new(elements: [PathEl; N]) -> (r: Self)
        ensures
            r.elements() == elements@,
            r.position() == 0,
            r.remaining() == elements@,
    {
        let r = Self { elements, index: 0 };
        assert(r.remaining() =~= elements@);
        r
    }

    /// Hands out the next element, or `None` once every element has been
    /// handed out, leaving the iterator as it is.
    pub fn next(&mut self) -> (r: Option<PathEl>)
        ensures
            old(self).position() < N ==> {
                &&& r == Some(old(self).elements()[old(self).position() as int])
                &&& final(self).position() == old(self).position() + 1
                &&& final(self).elements() == old(self).elements()
            },
            old(self).position() >= N ==> r is None && *final(self) == *old(self),
            match r {
                Some(e) => {
                    &&& old(self).remaining().len() > 0
                    &&& e == old(self).remaining()[0]
                    &&& final(self).remaining() == old(self).remaining().drop_first()
                },
                None => {
                    &&& old(self).remaining().len() == 0
                    &&& final(self).remaining() == old(self).remaining()
                },
            },
    {
        if self.index < N {
            let element = self.elements[self.index];
            let ghost before = self.remaining();
            self.index = self.index + 1;
            assert(self.remaining() =~= before.drop_first());
            Some(element)
        } else {
            None
        }
    }
}

/// Describes the relationship between two rectangles.
#[allow(dead_code)]
#[derive(Clone, Copy, Debug, PartialEq, Eq, Structural)]
pub(crate) enum Intersection {
    /// The other rectangle is completely inside this rectangle.
    Contains,
    /// The other rectangle partially overlaps with this rectangle.
    Overlaps,
    /// The other rectangle does not intersect with this rectangle.
    NonIntersecting,
}

/// The end point of an element that draws from the current location.
pub open spec fn segment_end(el: PathEl) -> Option<Point> {
    match el {
        PathEl::LineTo(p) => Some(p),
        PathEl::QuadTo(_, p) => Some(p),
        PathEl::CurveTo(_, _, p) => Some(p),
        _ => None,
    }
}

/// Whether `p` moved by `offset` stays within the coordinate range.
pub open spec fn shift_fits(p: Point, offset: Point) -> bool {
    &&& i32::MIN <= p.x + offset.x <= i32::MAX
    &&& i32::MIN <= p.y + offset.y <= i32::MAX
}

/// `p` moved by `offset`.
pub open spec fn shifted(p: Point, offset: Point) -> Point {
    Point { x: (p.x + offset.x) as i32, y: (p.y + offset.y) as i32 }
}

/// A point fits at an offset exactly when moving it is exact: each moved
/// coordinate is the true sum of the coordinate and the offset, with no
/// wrap-around. Negative results fit like any other.
pub proof fn lemma_shift_fits_iff_exact(p: Point, offset: Point)
    ensures
        shift_fits(p, offset) <==> (shifted(p, offset).x == p.x + offset.x && shifted(
            p,
            offset,
        ).y == p.y + offset.y),
{
}

/// A path that starts with a `MoveTo` fits exactly when that first move is
/// exact; in particular a single move fits at any offset that does not push
/// its point out of the coordinate range, in either direction.
pub proof fn lemma_single_move_fits(p: Point, offset: Point)
    ensures
        path_fits(seq![PathEl::MoveTo(p)], offset) <==> (shifted(p, offset).x == p.x + offset.x
            && shifted(p, offset).y == p.y + offset.y),
{
    let els = seq![PathEl::MoveTo(p)];
    assert(els.drop_last() =~= Seq::<PathEl>::empty());
    assert(path_fits(Seq::<PathEl>::empty(), offset));
    assert(els.last() == PathEl::MoveTo(p));
    lemma_shift_fits_iff_exact(p, offset);
}

/// The pen after the elements `els` have been drawn at `offset`: none until
/// the first `MoveTo`, then the (moved) start of the current subpath and the
/// (moved) pen position. A `MoveTo` starts a subpath at its point; a drawing
/// element moves the pen to its end point; `ClosePath` moves the pen back to
/// the start of the subpath.
pub open spec fn pen_after(els: Seq<PathEl>, offset: Point) -> Option<(Point, Point)>
    decreases els.len(),
{
    if els.len() == 0 {
        None
    } else {
        let pen = pen_after(els.drop_last(), offset);
        match els.last() {
            PathEl::MoveTo(p) => Some((shifted(p, offset), shifted(p, offset))),
            PathEl::ClosePath => match pen {
                Some((start, _)) => Some((start, start)),
                None => None,
            },
            _ => match pen {
                Some((start, _)) => Some((start, shifted(segment_end(els.last()).unwrap(), offset))),
                None => None,
            },
        }
    }
}

/// The pen position of a pen, if there is one.
pub open spec fn pen_position(pen: Option<(Point, Point)>) -> Option<Point> {
    match pen {
        Some((_, position)) => Some(position),
        None => None,
    }
}

/// The start of the current subpath of a pen, if there is one.
pub open spec fn subpath_start(pen: Option<(Point, Point)>) -> Option<Point> {
    match pen {
        Some((start, _)) => Some(start),
        None => None,
    }
}

/// The straight lines drawn for the path `els` at `offset`: every element
/// after the first `MoveTo` that is not itself a `MoveTo` draws one line from
/// the pen position. A line, quadratic or cubic element draws to its end point
/// (curves are drawn as straight lines); `ClosePath` draws a line back to the
/// start of the subpath.
pub open spec fn path_lines(els: Seq<PathEl>, offset: Point) -> Seq<(Point, Point)>
    decreases els.len(),
{
    if els.len() == 0 {
        seq![]
    } else {
        let lines = path_lines(els.drop_last(), offset);
        match pen_after(els.drop_last(), offset) {
            None => lines,
            Some((start, pen)) => match els.last() {
                PathEl::MoveTo(_) => lines,
                PathEl::ClosePath => lines.push((pen, start)),
                _ => lines.push((pen, shifted(segment_end(els.last()).unwrap(), offset))),
            },
        }
    }
}

/// Every point that drawing `els` at `offset` moves stays within the
/// coordinate range: the point of each `MoveTo`, and the end point of each
/// drawing element that comes after a `MoveTo`.
pub open spec fn path_fits(els: Seq<PathEl>, offset: Point) -> bool
    decreases els.len(),
{
    if els.len() == 0 {
        true
    } else {
        &&& path_fits(els.drop_last(), offset)
        &&& match els.last() {
            PathEl::MoveTo(p) => shift_fits(p, offset),
            PathEl::ClosePath => true,
            _ => pen_after(els.drop_last(), offset) is Some ==> shift_fits(
                segment_end(els.last()).unwrap(),
                offset,
            ),
        }
    }
}

/// A path that fits fits in each of its prefixes.
proof fn lemma_path_fits_prefix(els: Seq<PathEl>, offset: Point, k: int)
    requires
        path_fits(els, offset),
        0 <= k <= els.len(),
    ensures
        path_fits(els.take(k), offset),
    decreases els.len(),
{
    if k < els.len() {
        assert(els.drop_last().take(k) =~= els.take(k));
        lemma_path_fits_prefix(els.drop_last(), offset, k);
    } else {
        assert(els.take(k) =~= els);
    }
}

/// Nothing is drawn before the first `MoveTo`: a path without one draws no
/// line and leaves no pen position.
pub proof fn lemma_no_move_draws_nothing(els: Seq<PathEl>, offset: Point)
    requires
        forall|i: int| 0 <= i < els.len() ==> !(#[trigger] els[i] is MoveTo),
    ensures
        path_lines(els, offset) == Seq::<(Point, Point)>::empty(),
        pen_after(els, offset) is None,
    decreases els.len(),
{
    if els.len() > 0 {
        let rest = els.drop_last();
        assert forall|i: int| 0 <= i < rest.len() implies !(#[trigger] rest[i] is MoveTo) by {
            assert(rest[i] == els[i]);
        }
        lemma_no_move_draws_nothing(rest, offset);
        assert(!(els[els.len() - 1] is MoveTo));
    }
}

/// `ClosePath` draws a line from the pen back to the start of the subpath,
/// and leaves the pen there.
pub proof fn lemma_close_path_returns_to_start(els: Seq<PathEl>, offset: Point)
    requires
        pen_after(els, offset) is Some,
    ensures
        ({
            let closed = els.push(PathEl::ClosePath);
            let start = subpath_start(pen_after(els, offset))->0;
            let pen = pen_position(pen_after(els, offset))->0;
            &&& path_lines(closed, offset) == path_lines(els, offset).push((pen, start))
            &&& pen_after(closed, offset) == Some((start, start))
        }),
{
    let closed = els.push(PathEl::ClosePath);
    assert(closed.drop_last() =~= els);
}

/// The start of the subpath is the (moved) point of the last `MoveTo`.
pub proof fn lemma_subpath_starts_at_last_move(els: Seq<PathEl>, offset: Point)
    requires
        pen_after(els, offset) is Some,
    ensures
        exists|i: int, p: Point|
            0 <= i < els.len() && els[i] == PathEl::MoveTo(p) && subpath_start(pen_after(els, offset)) == Some(
                shifted(p, offset),
            ) && forall|j: int| i < j < els.len() ==> !(
            #[trigger] els[j] is MoveTo),
    decreases els.len(),
{
    let rest = els.drop_last();
    let last = els.last();
    if let PathEl::MoveTo(p) = last {
        let i = els.len() - 1;
        assert(els[i] == PathEl::MoveTo(p));
    } else {
        lemma_subpath_starts_at_last_move(rest, offset);
        let (i, p) = choose|i: int, p: Point|
            0 <= i < rest.len() && rest[i] == PathEl::MoveTo(p) && subpath_start(pen_after(rest, offset)) == Some(
                shifted(p, offset),
            ) && forall|j: int| i < j < rest.len() ==> !(
            #[trigger] rest[j] is MoveTo);
        assert(els[i] == rest[i]);
        assert forall|j: int| i < j < els.len() implies !(#[trigger] els[j] is MoveTo) by {
            if j < rest.len() {
                assert(els[j] == rest[j]);
            }
        }
    }
}

/// Each line starts where the pen was, and the pen then sits at the line's
/// end: appending one element to a path adds at most one line, which starts at
/// the pen position of the shorter path and ends at that of the longer one.
pub proof fn lemma_lines_start_at_pen(els: Seq<PathEl>, el: PathEl, offset: Point)
    ensures
        ({
            let longer = els.push(el);
            let before = path_lines(els, offset);
            let after = path_lines(longer, offset);
            ||| after == before
            ||| {
                &&& after.len() == before.len() + 1
                &&& after.drop_last() == before
                &&& pen_position(pen_after(els, offset)) == Some(after.last().0)
                &&& pen_position(pen_after(longer, offset)) == Some(after.last().1)
            }
        }),
{
    let longer = els.push(el);
    assert(longer.drop_last() =~= els);
    assert(longer.last() == el);
    let before = path_lines(els, offset);
    let after = path_lines(longer, offset);
    if after != before {
        assert(after.drop_last() =~= before);
    }
}

/// Draws any shape as straight lines between the points of its path.
#[derive(Debug)]
pub struct PathDrawProvider;

/// Whether `p` moved by `offset` stays within the coordinate range.
fn shift_fits_exec(p: Point, offset: Point) -> (r: bool)
    ensures
        r == shift_fits(p, offset),
{
    let x = p.x as i64 + offset.x as i64;
    let y = p.y as i64 + offset.y as i64;
    i32::MIN as i64 <= x && x <= i32::MAX as i64 && i32::MIN as i64 <= y && y <= i32::MAX as i64
}

impl PathDrawProvider {
    /// Whether drawing `elements` at `offset` keeps every point it moves
    /// within the coordinate range.
    pub fn path_fits(elements: &Vec<PathEl>, offset: Point) -> (r: bool)
        ensures
            r == path_fits(elements@, offset),
    {
        let mut fits = true;
        let mut has_pen = false;
        let n = elements.len();
        let mut i: usize = 0;
        while i < n
            invariant
                n == elements@.len(),
                0 <= i <= n,
                fits == path_fits(elements@.take(i as int), offset),
                has_pen == pen_after(elements@.take(i as int), offset) is Some,
            decreases n - i,
        {
            let ghost next_prefix = elements@.take(i + 1);
            proof {
                assert(next_prefix.drop_last() =~= elements@.take(i as int));
                assert(next_prefix.last() == elements@[i as int]);
            }
            match elements[i] {
                PathEl::MoveTo(point) => {
                    fits = fits && shift_fits_exec(point, offset);
                    has_pen = true;
                },
                PathEl::LineTo(point) => {
                    if has_pen {
                        fits = fits && shift_fits_exec(point, offset);
                    }
                },
                PathEl::QuadTo(_control, point) => {
                    if has_pen {
                        fits = fits && shift_fits_exec(point, offset);
                    }
                },
                PathEl::CurveTo(_control1, _control2, point) => {
                    if has_pen {
                        fits = fits && shift_fits_exec(point, offset);
                    }
                },
                PathEl::ClosePath => {},
            }
            i = i + 1;
        }
        proof {
            assert(elements@.take(n as int) =~= elements@);
        }
        fits
    }

    /// The lines drawn for `elements` moved by `offset`, in drawing order.
    pub fn path_lines(elements: &Vec<PathEl>, offset: Point) -> (r: Vec<(Point, Point)>)
        requires
            path_fits(elements@, offset),
        ensures
            r@ == path_lines(elements@, offset),
    {
        // The start of the current subpath, and the pen position.
        let mut pen: Option<(Point, Point)> = None;
        let mut lines: Vec<(Point, Point)> = Vec::new();
        let n = elements.len();
        let mut i: usize = 0;
        while i < n
            invariant
                n == elements@.len(),
                0 <= i <= n,
                path_fits(elements@, offset),
                pen == pen_after(elements@.take(i as int), offset),
                lines@ == path_lines(elements@.take(i as int), offset),
            decreases n - i,
        {
            let ghost prefix = elements@.take(i as int);
            let ghost next_prefix = elements@.take(i + 1);
            proof {
                lemma_path_fits_prefix(elements@, offset, i + 1);
                assert(next_prefix.drop_last() =~= prefix);
                assert(next_prefix.last() == elements@[i as int]);
            }
            match elements[i] {
                PathEl::MoveTo(point) => {
                    let p = Point::new(point.x + offset.x, point.y + offset.y);
                    pen = Some((p, p));
                },
                PathEl::LineTo(point) => {
                    if let Some((start, current)) = pen {
                        let end = Point::new(point.x + offset.x, point.y + offset.y);
                        lines.push((current, end));
                        pen = Some((start, end));
                    }
                },
                PathEl::QuadTo(_control, point) => {
                    // Simplified to a straight line
                    if let Some((start, current)) = pen {
                        let end = Point::new(point.x + offset.x, point.y + offset.y);
                        lines.push((current, end));
                        pen = Some((start, end));
                    }
                },
                PathEl::CurveTo(_control1, _control2, point) => {
                    // Simplified to a straight line
                    if let Some((start, current)) = pen {
                        let end = Point::new(point.x + offset.x, point.y + offset.y);
                        lines.push((current, end));
                        pen = Some((start, end));
                    }
                },
                PathEl::ClosePath => {
                    // Close the path by drawing a line back to the starting point
                    if let Some((start, current)) = pen {
                        lines.push((current, start));
                        pen = Some((start, start));
                    }
                },
            }
            i = i + 1;
        }
        proof {
            assert(elements@.take(n as int) =~= elements@);
        }
        lines
    }

    /// The lines drawn for `shape`'s path (at unit tolerance) in the space that
    /// `transform` leads into, in drawing order; `None` when a point of the
    /// path would leave the coordinate range there.
    pub fn line_segments<S: Shape>(shape: &S, transform: &LinearTransform) -> (r: Option<
        Vec<(Point, Point)>,
    >)
        ensures
            r is Some <==> path_fits(shape.path_spec(1), transform.offset),
            r matches Some(lines) ==> lines@ == path_lines(shape.path_spec(1), transform.offset),
    {
        let elements = shape.path_elements(1);
        if Self::path_fits(&elements, transform.offset) {
            Some(Self::path_lines(&elements, transform.offset))
        } else {
            None
        }
    }
}

} // verus!
