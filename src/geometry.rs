use vstd::prelude::*;

verus! {

/// A position in the drawing surface's integer coordinates.
#[derive(Clone, Copy, PartialEq, Eq, Debug)]
pub struct Point {
    pub x: i64,
    pub y: i64,
}

/// The extent a component occupied: a width and a height.
#[derive(Clone, Copy, PartialEq, Eq, Debug)]
pub struct Size {
    pub w: i64,
    pub h: i64,
}

/// What the host tells the bar about the pointer in one frame.
#[derive(Clone, Copy, PartialEq, Eq, Debug)]
pub struct Input {
    /// Where the pointer is.
    pub mouse: Point,
    /// Whether the primary button went from released to pressed this frame.
    pub pressed: bool,
}

/// Every origin handed to a component lies within this distance of zero on
/// both axes, so that no coordinate computed from it leaves `i64`.
pub const COORD_BOUND: i64 = 0x1000_0000_0000_0000;

/// The most rows a menu or a radio group may hold (exclusive), for the same
/// reason.
pub const MAX_ROWS: usize = 65536;

pub open spec fn in_bounds(p: Point) -> bool {
    -COORD_BOUND <= p.x <= COORD_BOUND && -COORD_BOUND <= p.y <= COORD_BOUND
}

/// Within twice that distance: where a row inside a component may start.
pub open spec fn near(p: Point) -> bool {
    -2 * COORD_BOUND <= p.x <= 2 * COORD_BOUND && -2 * COORD_BOUND <= p.y <= 2 * COORD_BOUND
}

/// Whether `p` lies in the rectangle at (`x`, `y`) of width `w` and height `h`,
/// all four edges included.
pub open spec fn in_rect(x: int, y: int, w: int, h: int, p: Point) -> bool {
    x <= p.x <= x + w && y <= p.y <= y + h
}

/// Hit test of `p` against a rectangle.
pub fn contains(x: i64, y: i64, w: i64, h: i64, p: Point) -> (r: bool)
    requires
        w >= 0,
        h >= 0,
        x + w <= i64::MAX,
        y + h <= i64::MAX,
    ensures
        r == in_rect(x as int, y as int, w as int, h as int, p),
{
    p.x >= x && p.x <= x + w && p.y <= y + h && p.y >= y
}

} // verus!
