use vstd::prelude::*;

verus! {

/// The largest value a coordinate or a dimension can take.
pub const DIM_MAX: u16 = 0xffff;

/// Adds two dimensions, clamping at `DIM_MAX`.
pub open spec fn sat_add(a: int, b: int) -> int {
    if a + b > DIM_MAX as int {
        DIM_MAX as int
    } else {
        a + b
    }
}

/// Subtracts two dimensions, clamping at zero.
pub open spec fn sat_sub(a: int, b: int) -> int {
    if a - b < 0 {
        0
    } else {
        a - b
    }
}

pub open spec fn min_int(a: int, b: int) -> int {
    if a <= b {
        a
    } else {
        b
    }
}

pub open spec fn max_int(a: int, b: int) -> int {
    if a >= b {
        a
    } else {
        b
    }
}

/// A position in buffer coordinates.
#[derive(Clone, Copy, Debug, PartialEq, Eq, Structural)]
pub struct Point {
    pub x: u16,
    pub y: u16,
}

impl Point {
    pub fn zero() -> (r: Point)
        ensures
            r.x == 0 && r.y == 0,
    {
        Point { x: 0, y: 0 }
    }
}

/// A width and a height in character cells.
#[derive(Clone, Copy, Debug, PartialEq, Eq, Structural)]
pub struct Size {
    pub width: u16,
    pub height: u16,
}

impl Size {
    pub open spec fn new_spec(width: u16, height: u16) -> Size {
        Size { width, height }
    }

    pub open spec fn spec_inset(self, left: int, right: int, top: int, bottom: int) -> Size {
        Size {
            width: sat_sub(sat_sub(self.width as int, left), right) as u16,
            height: sat_sub(sat_sub(self.height as int, top), bottom) as u16,
        }
    }

    pub open spec fn spec_outset(self, left: int, right: int, top: int, bottom: int) -> Size {
        Size {
            width: sat_add(sat_add(self.width as int, left), right) as u16,
            height: sat_add(sat_add(self.height as int, top), bottom) as u16,
        }
    }

    pub open spec fn spec_min(self, other: Size) -> Size {
        Size {
            width: min_int(self.width as int, other.width as int) as u16,
            height: min_int(self.height as int, other.height as int) as u16,
        }
    }

    /// Creates a new size with the given width and height.
    pub fn new(width: u16, height: u16) -> (r: Size)
        ensures
            r.width == width && r.height == height,
    {
        Size { width, height }
    }

    /// Creates a new size with the width and height set to 0.
    pub fn zero() -> (r: Size)
        ensures
            r.width == 0 && r.height == 0,
    {
        Size { width: 0, height: 0 }
    }

    /// Creates a new size with the width and height set to their largest value.
    pub fn max() -> (r: Size)
        ensures
            r.width == DIM_MAX && r.height == DIM_MAX,
    {
        Size { width: DIM_MAX, height: DIM_MAX }
    }

    /// Reduces the size by the given inset on each side; a dimension never
    /// goes below zero.
    pub fn inset_by(self, left: u16, right: u16, top: u16, bottom: u16) -> (r: Size)
        ensures
            r == self.spec_inset(left as int, right as int, top as int, bottom as int),
    {
        Size {
            width: self.width.saturating_sub(left).saturating_sub(right),
            height: self.height.saturating_sub(top).saturating_sub(bottom),
        }
    }

    /// Increases the size by the given outset on each side; a dimension never
    /// goes above `DIM_MAX`.
    pub fn outset_by(self, left: u16, right: u16, top: u16, bottom: u16) -> (r: Size)
        ensures
            r == self.spec_outset(left as int, right as int, top as int, bottom as int),
    {
        Size {
            width: self.width.saturating_add(left).saturating_add(right),
            height: self.height.saturating_add(top).saturating_add(bottom),
        }
    }

    /// Returns a new size with the smaller of each dimension of the two sizes.
    pub fn min(&self, proposed: Size) -> (r: Size)
        ensures
            r == self.spec_min(proposed),
    {
        Size {
            width: if self.width <= proposed.width { self.width } else { proposed.width },
            height: if self.height <= proposed.height { self.height } else { proposed.height },
        }
    }
}

/// Insetting a size and then outsetting it by the same edges gives the size
/// back, whenever the inset does not reach below zero.
pub proof fn lemma_inset_outset(s: Size, left: u16, right: u16, top: u16, bottom: u16)
    requires
        left + right <= s.width,
        top + bottom <= s.height,
    ensures
        s.spec_inset(left as int, right as int, top as int, bottom as int).spec_outset(
            left as int,
            right as int,
            top as int,
            bottom as int,
        ) == s,
{
}

/// Outsetting a size and then insetting it by the same edges gives the size
/// back, whenever the outset does not pass `DIM_MAX`.
pub proof fn lemma_outset_inset(s: Size, left: u16, right: u16, top: u16, bottom: u16)
    requires
        s.width + left + right <= DIM_MAX,
        s.height + top + bottom <= DIM_MAX,
    ensures
        s.spec_outset(left as int, right as int, top as int, bottom as int).spec_inset(
            left as int,
            right as int,
            top as int,
            bottom as int,
        ) == s,
{
}

/// An axis-aligned region in buffer coordinates.
#[derive(Clone, Copy, Debug, PartialEq, Eq, Structural)]
pub struct Rect {
    pub point: Point,
    pub size: Size,
}

impl Rect {
    pub fn new(x: u16, y: u16, width: u16, height: u16) -> (r: Rect)
        ensures
            r.point.x == x && r.point.y == y,
            r.size.width == width && r.size.height == height,
    {
        Rect { point: Point { x, y }, size: Size { width, height } }
    }

    pub fn left(&self) -> (r: u16)
        ensures
            r == self.point.x,
    {
        self.point.x
    }

    pub fn top(&self) -> (r: u16)
        ensures
            r == self.point.y,
    {
        self.point.y
    }

    /// The column just past the rectangle, clamped at `DIM_MAX`.
    pub fn right(&self) -> (r: u16)
        ensures
            r == sat_add(self.point.x as int, self.size.width as int),
    {
        self.point.x.saturating_add(self.size.width)
    }

    /// The row just past the rectangle, clamped at `DIM_MAX`.
    pub fn bottom(&self) -> (r: u16)
        ensures
            r == sat_add(self.point.y as int, self.size.height as int),
    {
        self.point.y.saturating_add(self.size.height)
    }

    pub open spec fn spec_offset(self, dx: int, dy: int) -> Rect {
        Rect {
            point: Point {
                x: sat_add(self.point.x as int, dx) as u16,
                y: sat_add(self.point.y as int, dy) as u16,
            },
            size: self.size,
        }
    }

    /// Moves the origin right and down, keeping the size.
    pub fn offset(self, dx: u16, dy: u16) -> (r: Rect)
        ensures
            r == self.spec_offset(dx as int, dy as int),
    {
        Rect {
            point: Point { x: self.point.x.saturating_add(dx), y: self.point.y.saturating_add(dy) },
            size: self.size,
        }
    }

    pub open spec fn spec_inset(self, left: int, right: int, top: int, bottom: int) -> Rect {
        Rect {
            point: Point {
                x: sat_add(self.point.x as int, left) as u16,
                y: sat_add(self.point.y as int, top) as u16,
            },
            size: self.size.spec_inset(left, right, top, bottom),
        }
    }

    pub open spec fn spec_outset(self, left: int, right: int, top: int, bottom: int) -> Rect {
        Rect {
            point: Point {
                x: sat_sub(self.point.x as int, left) as u16,
                y: sat_sub(self.point.y as int, top) as u16,
            },
            size: self.size.spec_outset(left, right, top, bottom),
        }
    }

    /// Moves each edge inward by the given amount.
    pub fn inset_by(self, inset_left: u16, inset_right: u16, inset_top: u16, inset_bottom: u16) -> (r:
        Rect)
        ensures
            r == self.spec_inset(
                inset_left as int,
                inset_right as int,
                inset_top as int,
                inset_bottom as int,
            ),
    {
        Rect {
            point: Point {
                x: self.point.x.saturating_add(inset_left),
                y: self.point.y.saturating_add(inset_top),
            },
            size: self.size.inset_by(inset_left, inset_right, inset_top, inset_bottom),
        }
    }

    /// Moves each edge outward by the given amount.
    pub fn outset_by(
        self,
        outset_left: u16,
        outset_right: u16,
        outset_top: u16,
        outset_bottom: u16,
    ) -> (r: Rect)
        ensures
            r == self.spec_outset(
                outset_left as int,
                outset_right as int,
                outset_top as int,
                outset_bottom as int,
            ),
    {
        Rect {
            point: Point {
                x: self.point.x.saturating_sub(outset_left),
                y: self.point.y.saturating_sub(outset_top),
            },
            size: self.size.outset_by(outset_left, outset_right, outset_top, outset_bottom),
        }
    }
}

} // verus!
