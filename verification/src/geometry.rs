//! Scene geometry in half pixels, and the path builder.
//!
//! A device position names a pixel. In the scene a pixel is a unit square,
//! and a position is one of two points of it: the corner, where a filled
//! region begins, or the centre, where a one-pixel stroke has to run to
//! cover the pixel. Counting in half pixels makes both whole numbers.

use vstd::prelude::*;

verus! {

/// A device position: a column and a row of pixels.
pub type BackendCoord = (i32, i32);

/// A position in the scene, counted in half pixels from the origin.
#[derive(Clone, Copy, Debug, PartialEq, Eq)]
pub struct Point {
    /// Twice the horizontal scene coordinate.
    pub x_halves: i64,
    /// Twice the vertical scene coordinate.
    pub y_halves: i64,
}

/// One element of a path.
#[derive(Clone, Copy, Debug, PartialEq, Eq)]
pub enum PathEl {
    /// Starts a subpath at the point.
    MoveTo(Point),
    /// Draws a straight segment to the point.
    LineTo(Point),
    /// Closes the subpath.
    ClosePath,
}

/// An axis-aligned rectangle given by two opposite corners, in half pixels.
#[derive(Clone, Copy, Debug, PartialEq, Eq)]
pub struct Rect {
    pub x0: i64,
    pub y0: i64,
    pub x1: i64,
    pub y1: i64,
}

/// A straight segment between two points.
#[derive(Clone, Copy, Debug, PartialEq, Eq)]
pub struct Line {
    pub start: Point,
    pub end: Point,
}

/// A circle. The radius is in whole pixels.
#[derive(Clone, Copy, Debug, PartialEq, Eq)]
pub struct Circle {
    pub center: Point,
    pub radius: u32,
}

/// The centre of the pixel at a device position: half a pixel right of and
/// below its corner.
pub open spec fn mid(coord: BackendCoord) -> Point {
    Point { x_halves: (2 * coord.0 + 1) as i64, y_halves: (2 * coord.1 + 1) as i64 }
}

/// The corner of the pixel at a device position: the position itself.
pub open spec fn corner(coord: BackendCoord) -> Point {
    Point { x_halves: (2 * coord.0) as i64, y_halves: (2 * coord.1) as i64 }
}

/// The path element made of the point at the head of a sequence: a move if
/// nothing was taken before it, a line otherwise.
pub open spec fn path_element(first: bool, coord: BackendCoord) -> PathEl {
    if first {
        PathEl::MoveTo(mid(coord))
    } else {
        PathEl::LineTo(mid(coord))
    }
}

/// The open path through the centres of a sequence of pixels: a move to the
/// first, then a line to each of the others.
pub open spec fn path_elements(points: Seq<BackendCoord>) -> Seq<PathEl> {
    Seq::new(points.len(), |i: int| path_element(i == 0, points[i]))
}

/// The closed path through the centres of a sequence of pixels.
pub open spec fn closed_path_elements(points: Seq<BackendCoord>) -> Seq<PathEl> {
    path_elements(points).push(PathEl::ClosePath)
}

/// A path has one element for each position. The first is a move to the
/// centre of the first pixel, whatever the length, and every other one is a
/// line to the centre of its pixel: no path begins with a line, and none
/// holds a second move.
pub proof fn lemma_path_begins_with_its_only_move(points: Seq<BackendCoord>)
    ensures
        path_elements(points).len() == points.len(),
        points.len() > 0 ==> path_elements(points)[0] == PathEl::MoveTo(mid(points[0])),
        forall|i: int|
            0 < i < points.len() ==> #[trigger] path_elements(points)[i] == PathEl::LineTo(
                mid(points[i]),
            ),
        closed_path_elements(points).len() == points.len() + 1,
        closed_path_elements(points).last() == PathEl::ClosePath,
        forall|i: int|
            0 <= i < points.len() ==> #[trigger] closed_path_elements(points)[i] == path_elements(
                points,
            )[i],
{
}

/// The scene point at the centre of a pixel.
pub fn plotters_point_to_kurbo_mid(coord: BackendCoord) -> (p: Point)
    ensures
        p.x_halves == 2 * coord.0 + 1,
        p.y_halves == 2 * coord.1 + 1,
        p == mid(coord),
{
    Point { x_halves: 2 * (coord.0 as i64) + 1, y_halves: 2 * (coord.1 as i64) + 1 }
}

/// The scene point at the corner of a pixel.
pub fn plotters_point_to_kurbo_corner(coord: BackendCoord) -> (p: Point)
    ensures
        p.x_halves == 2 * coord.0,
        p.y_halves == 2 * coord.1,
        p == corner(coord),
{
    Point { x_halves: 2 * (coord.0 as i64), y_halves: 2 * (coord.1 as i64) }
}

/// Walks a sequence of device positions and gives the path through them, one
/// element at a time: the first is a move, every later one a line.
pub struct PlottersPathToKurbo<'a> {
    iter: &'a [BackendCoord],
    taken: usize,
    first: bool,
}

impl<'a> PlottersPathToKurbo<'a> {
    #[verifier::type_invariant]
    spec fn well_formed(&self) -> bool {
        self.taken <= self.iter@.len()
    }

    /// The positions that have not been taken yet.
    pub closed spec fn remaining(&self) -> Seq<BackendCoord> {
        self.iter@.skip(self.taken as int)
    }

    /// Whether the next element is the first one.
    pub closed spec fn first(&self) -> bool {
        self.first
    }

    /// Starts at the head of `path`.
    pub fn new(path: &'a [BackendCoord]) -> (it: Self)
        ensures
            it.remaining() == path@,
            it.first(),
    {
        PlottersPathToKurbo { iter: path, taken: 0, first: true }
    }

    /// Takes the next position and gives its path element, or `None` when
    /// every position has been taken.
    pub fn next(&mut self) -> (el: Option<PathEl>)
        ensures
            old(self).remaining().len() == 0 ==> el is None,
            old(self).remaining().len() == 0 ==> final(self).remaining() == old(self).remaining(),
            old(self).remaining().len() == 0 ==> final(self).first() == old(self).first(),
            old(self).remaining().len() > 0 ==> el == Some(
                path_element(old(self).first(), old(self).remaining()[0]),
            ),
            old(self).remaining().len() > 0 ==> final(self).remaining() == old(self).remaining().drop_first(),
            old(self).remaining().len() > 0 ==> !final(self).first(),
    {
        proof {
            use_type_invariant(&*self);
        }
        if self.taken < self.iter.len() {
            let point = plotters_point_to_kurbo_mid(self.iter[self.taken]);
            let was_first = self.first;
            self.taken = self.taken + 1;
            self.first = false;
            if was_first {
                Some(PathEl::MoveTo(point))
            } else {
                Some(PathEl::LineTo(point))
            }
        } else {
            None
        }
    }
}

/// The open path through the centres of the pixels of `path`.
pub fn plotters_path_to_kurbo(path: &[BackendCoord]) -> (elements: Vec<PathEl>)
    ensures
        elements@ == path_elements(path@),
{
    let mut walk = PlottersPathToKurbo::new(path);
    let mut elements: Vec<PathEl> = Vec::new();
    loop
        invariant
            elements.len() <= path@.len(),
            walk.remaining() == path@.skip(elements.len() as int),
            walk.first() == (elements.len() == 0),
            elements@ == path_elements(path@).take(elements.len() as int),
        ensures
            elements@ == path_elements(path@),
        decreases path@.len() - elements.len(),
    {
        match walk.next() {
            None => {
                break ;
            },
            Some(element) => {
                elements.push(element);
            },
        }
    }
    elements
}

} // verus!
