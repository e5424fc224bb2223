//! Clamped, inclusive pixel bounding boxes.
//!
//! A bounding box is the axis-aligned pixel rectangle that a projected shape
//! is guaranteed to lie in; the rasterizer scans only this rectangle. The
//! caller computes real-valued bounds for a shape, takes their floor (for a
//! low edge) or ceiling (for a high edge), and hands the rounded candidates
//! to [`BoundingBox::from_candidates`], which clamps each one into the
//! canvas range `[0, dimension - 1]`.

use vstd::prelude::*;

verus! {

/// An axis-aligned rectangle of pixels, inclusive on all four edges.
///
/// Equality is structural. A box made by [`BoundingBox::from_candidates`]
/// for a non-empty canvas always satisfies [`BoundingBox::wf`].
#[derive(Clone, Copy, PartialEq, Eq, Structural, Debug)]
pub struct BoundingBox {
    /// Leftmost pixel column of the box.
    pub x_low: u32,
    /// Rightmost pixel column of the box, inclusive.
    pub x_high: u32,
    /// Lowest pixel row of the box.
    pub y_low: u32,
    /// Highest pixel row of the box, inclusive.
    pub y_high: u32,
}

/// The value that clamping the rounded candidate `c` into the pixel range
/// `[0, n - 1]` of an axis with `n` pixels yields. A candidate below the
/// canvas is pinned to `0`, one at or beyond `n` to the last pixel; for a
/// degenerate axis (`n == 0`) every candidate yields `0`.
pub open spec fn clamp_spec(c: int, n: int) -> int {
    if c < 0 {
        0
    } else if c >= n {
        if n == 0 {
            0
        } else {
            n - 1
        }
    } else {
        c
    }
}

/// The clamped value is a pixel of the axis whenever the axis is non-empty.
pub proof fn lemma_clamp_in_range(c: int, n: int)
    requires
        n > 0,
    ensures
        0 <= clamp_spec(c, n) < n,
{
}

/// Clamping keeps the order of candidates, so an ordered pair of candidates
/// yields an ordered pair of box edges.
pub proof fn lemma_clamp_monotone(c1: int, c2: int, n: int)
    requires
        c1 <= c2,
        n >= 0,
    ensures
        clamp_spec(c1, n) <= clamp_spec(c2, n),
{
}

/// Clamp one rounded coordinate candidate into the pixel range of an axis
/// with `n` pixels.
pub fn clamp_axis(c: i64, n: u32) -> (r: u32)
    ensures
        r == clamp_spec(c as int, n as int),
{
    if c < 0 {
        0
    } else if c >= n as i64 {
        if n == 0 {
            0
        } else {
            n - 1
        }
    } else {
        c as u32
    }
}

impl BoundingBox {
    /// The box lies inside the `nx` by `ny` canvas and its edges are ordered:
    /// `x_low <= x_high < nx` and `y_low <= y_high < ny`.
    pub open spec fn wf(self, nx: u32, ny: u32) -> bool {
        self.x_low <= self.x_high < nx && self.y_low <= self.y_high < ny
    }

    /// Number of pixel columns the box covers.
    pub open spec fn width(self) -> int {
        self.x_high - self.x_low + 1
    }

    /// Number of pixel rows the box covers.
    pub open spec fn height(self) -> int {
        self.y_high - self.y_low + 1
    }

    /// Build the bounding box of a shape from the four rounded coordinate
    /// candidates of its real-valued bounds, clamping each candidate into
    /// the canvas. On a non-empty canvas, ordered candidates always give a
    /// well-formed box.
    pub fn from_candidates(
        x_low: i64,
        x_high: i64,
        y_low: i64,
        y_high: i64,
        nx: u32,
        ny: u32,
    ) -> (b: BoundingBox)
        ensures
            b.x_low == clamp_spec(x_low as int, nx as int),
            b.x_high == clamp_spec(x_high as int, nx as int),
            b.y_low == clamp_spec(y_low as int, ny as int),
            b.y_high == clamp_spec(y_high as int, ny as int),
            nx > 0 && ny > 0 && x_low <= x_high && y_low <= y_high ==> b.wf(nx, ny),
    {
        let b = BoundingBox {
            x_low: clamp_axis(x_low, nx),
            x_high: clamp_axis(x_high, nx),
            y_low: clamp_axis(y_low, ny),
            y_high: clamp_axis(y_high, ny),
        };
        proof {
            if nx > 0 && ny > 0 && x_low <= x_high && y_low <= y_high {
                lemma_clamp_in_range(x_low as int, nx as int);
                lemma_clamp_in_range(x_high as int, nx as int);
                lemma_clamp_in_range(y_low as int, ny as int);
                lemma_clamp_in_range(y_high as int, ny as int);
                lemma_clamp_monotone(x_low as int, x_high as int, nx as int);
                lemma_clamp_monotone(y_low as int, y_high as int, ny as int);
            }
        }
        b
    }
}

/// Smallest of the four rounded corner coordinates of a rotated rectangle
/// on one axis: the low candidate of its bounding box.
pub fn min4(a: i64, b: i64, c: i64, d: i64) -> (r: i64)
    ensures
        r == vstd::math::min(
            vstd::math::min(a as int, b as int),
            vstd::math::min(c as int, d as int),
        ),
{
    let mut r = a;
    if b < r {
        r = b;
    }
    if c < r {
        r = c;
    }
    if d < r {
        r = d;
    }
    r
}

/// Largest of the four rounded corner coordinates of a rotated rectangle
/// on one axis: the high candidate of its bounding box.
pub fn max4(a: i64, b: i64, c: i64, d: i64) -> (r: i64)
    ensures
        r == vstd::math::max(
            vstd::math::max(a as int, b as int),
            vstd::math::max(c as int, d as int),
        ),
{
    let mut r = a;
    if b > r {
        r = b;
    }
    if c > r {
        r = c;
    }
    if d > r {
        r = d;
    }
    r
}

impl From<(u32, u32, u32, u32)> for BoundingBox {
    /// Assemble a box directly from its four edges, given as
    /// `(x_low, x_high, y_low, y_high)`.
    fn from(edges: (u32, u32, u32, u32)) -> (b: BoundingBox) {
        BoundingBox { x_low: edges.0, x_high: edges.1, y_low: edges.2, y_high: edges.3 }
    }
}

impl vstd::std_specs::convert::FromSpecImpl<(u32, u32, u32, u32)> for BoundingBox {
    open spec fn obeys_from_spec() -> bool {
        true
    }

    open spec fn from_spec(edges: (u32, u32, u32, u32)) -> BoundingBox {
        BoundingBox { x_low: edges.0, x_high: edges.1, y_low: edges.2, y_high: edges.3 }
    }
}

} // verus!
