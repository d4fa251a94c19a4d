//! Pixels, sizes and cursor positions, and the test that tells the middle of
//! the window from its edges.

use vstd::prelude::*;

verus! {

/// The distance from each edge of the window, in pixels, within which a drag
/// resizes the window instead of moving it.
pub const EDGE_PADDING: u32 = 100;

/// The width of the window's contents at start, in pixels.
pub const DEFAULT_WINDOW_WIDTH: u32 = 1280;

/// The height of the window's contents at start, in pixels.
pub const DEFAULT_WINDOW_HEIGHT: u32 = 720;

/// A pixel position on the screen, as the window system reports it.
#[derive(Clone, Copy, Debug, PartialEq, Eq, Structural)]
pub struct Point {
    pub x: i32,
    pub y: i32,
}

/// A width and a height in pixels.
#[derive(Clone, Copy, Debug, PartialEq, Eq, Structural)]
pub struct Size {
    pub width: u32,
    pub height: u32,
}

/// A position along one axis that may fall between two pixels. It stands for
/// a real number `v` with `whole <= v < whole + 1`, and `fraction` says
/// whether `v` differs from `whole`.
#[derive(Clone, Copy, Debug, PartialEq, Eq, Structural)]
pub struct Coord {
    pub whole: i64,
    pub fraction: bool,
}

/// Where the cursor is, relative to the top-left corner of the window.
#[derive(Clone, Copy, Debug, PartialEq, Eq, Structural)]
pub struct CursorPosition {
    pub x: Coord,
    pub y: Coord,
}

impl Coord {
    /// The position is strictly greater than the integer `n`.
    pub open spec fn is_above(self, n: int) -> bool {
        self.whole > n || (self.whole == n && self.fraction)
    }

    /// The position is strictly less than the integer `n`.
    pub open spec fn is_below(self, n: int) -> bool {
        self.whole < n
    }

    /// The position exactly on pixel `p`.
    pub fn at_pixel(p: i64) -> (c: Coord)
        ensures
            c == (Coord { whole: p, fraction: false }),
    {
        Coord { whole: p, fraction: false }
    }

    /// Whether the position is strictly greater than `n`.
    pub fn above(&self, n: i64) -> (b: bool)
        ensures
            b == self.is_above(n as int),
    {
        self.whole > n || (self.whole == n && self.fraction)
    }

    /// Whether the position is strictly less than `n`.
    pub fn below(&self, n: i64) -> (b: bool)
        ensures
            b == self.is_below(n as int),
    {
        self.whole < n
    }
}

/// A coordinate compares with an integer as the number it stands for does.
/// The number is given as the fraction `p / q`; every finite binary
/// floating-point value is such a fraction.
pub proof fn law_coord_orders_as_its_value(c: Coord, p: int, q: int, n: int)
    requires
        q > 0,
        c.whole * q <= p < (c.whole + 1) * q,
        c.fraction <==> p != c.whole * q,
    ensures
        c.is_above(n) <==> n * q < p,
        c.is_below(n) <==> p < n * q,
{
    let w = c.whole as int;
    if w > n {
        assert((n + 1) * q <= w * q) by (nonlinear_arith)
            requires
                n + 1 <= w,
                q > 0,
        ;
        assert((n + 1) * q == n * q + q) by (nonlinear_arith);
    } else if w < n {
        assert((w + 1) * q <= n * q) by (nonlinear_arith)
            requires
                w + 1 <= n,
                q > 0,
        ;
    }
}

/// The cursor lies in the window's interior, more than [`EDGE_PADDING`] away
/// from every edge. A window no wider or no higher than twice the padding
/// has no such interior.
pub open spec fn in_padded_interior(cursor: CursorPosition, size: Size) -> bool {
    &&& cursor.x.is_above(EDGE_PADDING as int)
    &&& cursor.x.is_below(size.width - EDGE_PADDING)
    &&& cursor.y.is_above(EDGE_PADDING as int)
    &&& cursor.y.is_below(size.height - EDGE_PADDING)
}

/// Whether the cursor lies in the padded interior of a window of that size.
pub fn inside_padded_interior(cursor: CursorPosition, size: Size) -> (b: bool)
    ensures
        b == in_padded_interior(cursor, size),
{
    let pad: i64 = EDGE_PADDING as i64;
    cursor.x.above(pad) && cursor.x.below(size.width as i64 - pad) && cursor.y.above(pad)
        && cursor.y.below(size.height as i64 - pad)
}

} // verus!
