//! Curve segments of a glyph outline.

use vstd::prelude::*;

verus! {

/// A point or vector of the plane.
///
/// Each coordinate holds the bit pattern of an IEEE-754 single precision
/// number.
#[derive(Clone, Copy, Debug, PartialEq, Eq, Structural)]
pub struct Vec2 {
    pub x: u32,
    pub y: u32,
}

/// A straight segment from `.0` to `.1`.
#[derive(Clone, Copy, Debug, PartialEq, Eq, Structural)]
pub struct Line(pub Vec2, pub Vec2);

/// A quadratic Bezier curve with control points `.0`, `.1`, `.2`.
#[derive(Clone, Copy, Debug, PartialEq, Eq, Structural)]
pub struct Bez2(pub Vec2, pub Vec2, pub Vec2);

/// A cubic Bezier curve with control points `.0` to `.3`.
#[derive(Clone, Copy, Debug, PartialEq, Eq, Structural)]
pub struct Bez3(pub Vec2, pub Vec2, pub Vec2, pub Vec2);

/// One curve of an outline.
#[derive(Clone, Copy, Debug, PartialEq, Eq, Structural)]
pub enum Segment {
    LINE(Line),
    BEZ2(Bez2),
    BEZ3(Bez3),
}

impl Line {
    /// The four coordinates in buffer order: x0, y0, x1, y1.
    pub open spec fn coords(self) -> Seq<u32> {
        seq![self.0.x, self.0.y, self.1.x, self.1.y]
    }

    /// The coordinates as they are laid out in a curve buffer.
    pub fn to_arr(self) -> (r: [u32; 4])
        ensures
            r@ == self.coords(),
    {
        let r: [u32; 4] = [self.0.x, self.0.y, self.1.x, self.1.y];
        assert(r@ =~= self.coords());
        r
    }
}

impl Bez2 {
    /// The six coordinates in buffer order.
    pub open spec fn coords(self) -> Seq<u32> {
        seq![self.0.x, self.0.y, self.1.x, self.1.y, self.2.x, self.2.y]
    }

    /// The coordinates as they are laid out in a curve buffer.
    pub fn to_arr(self) -> (r: [u32; 6])
        ensures
            r@ == self.coords(),
    {
        let r: [u32; 6] = [self.0.x, self.0.y, self.1.x, self.1.y, self.2.x, self.2.y];
        assert(r@ =~= self.coords());
        r
    }
}

impl Bez3 {
    /// The eight coordinates in buffer order.
    pub open spec fn coords(self) -> Seq<u32> {
        seq![
            self.0.x,
            self.0.y,
            self.1.x,
            self.1.y,
            self.2.x,
            self.2.y,
            self.3.x,
            self.3.y,
        ]
    }

    /// The coordinates as they are laid out in a curve buffer.
    pub fn to_arr(self) -> (r: [u32; 8])
        ensures
            r@ == self.coords(),
    {
        let r: [u32; 8] = [
            self.0.x,
            self.0.y,
            self.1.x,
            self.1.y,
            self.2.x,
            self.2.y,
            self.3.x,
            self.3.y,
        ];
        assert(r@ =~= self.coords());
        r
    }
}

impl Segment {
    /// The first control point.
    pub open spec fn spec_start(self) -> Vec2 {
        match self {
            Segment::LINE(l) => l.0,
            Segment::BEZ2(b) => b.0,
            Segment::BEZ3(b) => b.0,
        }
    }

    /// The last control point.
    pub open spec fn spec_end(self) -> Vec2 {
        match self {
            Segment::LINE(l) => l.1,
            Segment::BEZ2(b) => b.2,
            Segment::BEZ3(b) => b.3,
        }
    }

    /// The point where the curve begins.
    pub fn start(&self) -> (p: Vec2)
        ensures
            p == self.spec_start(),
    {
        match self {
            Segment::LINE(l) => l.0,
            Segment::BEZ2(b) => b.0,
            Segment::BEZ3(b) => b.0,
        }
    }

    /// The point where the curve ends.
    pub fn end(&self) -> (p: Vec2)
        ensures
            p == self.spec_end(),
    {
        match self {
            Segment::LINE(l) => l.1,
            Segment::BEZ2(b) => b.2,
            Segment::BEZ3(b) => b.3,
        }
    }
}

/// The lines among `segs`, in order.
pub open spec fn lines_of(segs: Seq<Segment>) -> Seq<Line>
    decreases segs.len(),
{
    if segs.len() == 0 {
        Seq::empty()
    } else {
        match segs.last() {
            Segment::LINE(l) => lines_of(segs.drop_last()).push(l),
            _ => lines_of(segs.drop_last()),
        }
    }
}

/// The quadratic curves among `segs`, in order.
pub open spec fn quads_of(segs: Seq<Segment>) -> Seq<Bez2>
    decreases segs.len(),
{
    if segs.len() == 0 {
        Seq::empty()
    } else {
        match segs.last() {
            Segment::BEZ2(b) => quads_of(segs.drop_last()).push(b),
            _ => quads_of(segs.drop_last()),
        }
    }
}

/// The cubic curves among `segs`, in order.
pub open spec fn cubics_of(segs: Seq<Segment>) -> Seq<Bez3>
    decreases segs.len(),
{
    if segs.len() == 0 {
        Seq::empty()
    } else {
        match segs.last() {
            Segment::BEZ3(b) => cubics_of(segs.drop_last()).push(b),
            _ => cubics_of(segs.drop_last()),
        }
    }
}

/// The outline of one glyph in the unit frame.
#[derive(Debug, Clone)]
pub struct Shape {
    pub segments: Vec<Segment>,
    pub dimensions: Vec2,
    pub offset: Vec2,
}

} // verus!
