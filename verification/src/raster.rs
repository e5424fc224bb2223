//! Scan order and buffer indexing of the rasterizer.
//!
//! The rasterizer owns a flat buffer of `nx * ny` intensities in
//! conventional image row order: row `0` of the buffer is the top row of the
//! image, while the design space counts rows upward, so pixel `(x, y)` lands
//! at buffer index `(ny - y - 1) * nx + x`. Each projected shape is scanned
//! over its bounding box only, column by column, each column bottom to top.
//! This module proves that the scan enumerates every pixel of the box
//! exactly once and that the flipped index never leaves the buffer.

use vstd::prelude::*;

verus! {

use crate::boundingbox::BoundingBox;
use vstd::arithmetic::div_mod::lemma_fundamental_div_mod;
use vstd::arithmetic::div_mod::lemma_fundamental_div_mod_converse;

/// Index of pixel `(x, y)` in the row-major buffer of an `nx` by `ny`
/// canvas, with the row order flipped so that row `0` is the top.
pub open spec fn buffer_index_spec(x: int, y: int, nx: int, ny: int) -> int {
    (ny - y - 1) * nx + x
}

/// The flipped index of every canvas pixel lies inside the buffer.
pub proof fn lemma_buffer_index_in_range(x: int, y: int, nx: int, ny: int)
    requires
        0 <= x < nx,
        0 <= y < ny,
    ensures
        0 <= buffer_index_spec(x, y, nx, ny) < nx * ny,
{
    assert(0 <= (ny - y - 1) * nx + x < nx * ny) by (nonlinear_arith)
        requires
            0 <= x < nx,
            0 <= y < ny,
    ;
}

/// Distinct canvas pixels have distinct buffer indices: accumulating into
/// the buffer at the flipped index never merges two pixels.
pub proof fn lemma_buffer_index_injective(
    x1: int,
    y1: int,
    x2: int,
    y2: int,
    nx: int,
    ny: int,
)
    requires
        0 <= x1 < nx,
        0 <= y1 < ny,
        0 <= x2 < nx,
        0 <= y2 < ny,
        buffer_index_spec(x1, y1, nx, ny) == buffer_index_spec(x2, y2, nx, ny),
    ensures
        x1 == x2,
        y1 == y2,
{
    assert(x1 == x2 && y1 == y2) by (nonlinear_arith)
        requires
            0 <= x1 < nx,
            0 <= y1 < ny,
            0 <= x2 < nx,
            0 <= y2 < ny,
            (ny - y1 - 1) * nx + x1 == (ny - y2 - 1) * nx + x2,
    ;
}

/// Compute the buffer index of pixel `(x, y)`, guarded by the one invariant
/// the subtraction needs: `y < ny`.
pub fn buffer_index(x: u32, y: u32, nx: u32, ny: u32) -> (i: usize)
    requires
        x < nx,
        y < ny,
        nx * ny <= usize::MAX,
    ensures
        i == buffer_index_spec(x as int, y as int, nx as int, ny as int),
        i < nx * ny,
{
    proof {
        lemma_buffer_index_in_range(x as int, y as int, nx as int, ny as int);
    }
    let row: u32 = ny - y - 1;
    let i: u64 = row as u64 * nx as u64 + x as u64;
    i as usize
}

/// Number of pixels the scan of box `b` visits.
pub open spec fn scan_len(b: BoundingBox) -> int {
    b.width() * b.height()
}

/// Pixel column visited at step `k` of the scan of box `b`.
pub open spec fn scan_x(b: BoundingBox, k: int) -> int {
    b.x_low + k / b.height()
}

/// Pixel row visited at step `k` of the scan of box `b`.
pub open spec fn scan_y(b: BoundingBox, k: int) -> int {
    b.y_low + k % b.height()
}

/// Every step of the scan stays inside the box.
pub proof fn lemma_scan_in_box(b: BoundingBox, k: int)
    requires
        b.x_low <= b.x_high,
        b.y_low <= b.y_high,
        0 <= k < scan_len(b),
    ensures
        b.x_low <= scan_x(b, k) <= b.x_high,
        b.y_low <= scan_y(b, k) <= b.y_high,
{
    let w = b.width();
    let h = b.height();
    lemma_fundamental_div_mod(k, h);
    assert(0 <= k % h < h && 0 <= k / h < w) by (nonlinear_arith)
        requires
            h >= 1,
            w >= 1,
            0 <= k < w * h,
            k == h * (k / h) + k % h,
    ;
}

/// Step `k` of the scan visits the pixel its coordinates say, and no step
/// is wasted: `k` is recovered from the visited pixel.
pub proof fn lemma_scan_covers(b: BoundingBox, x: int, y: int, k: int)
    requires
        b.x_low <= x <= b.x_high,
        b.y_low <= y <= b.y_high,
        k == (x - b.x_low) * b.height() + (y - b.y_low),
    ensures
        0 <= k < scan_len(b),
        scan_x(b, k) == x,
        scan_y(b, k) == y,
{
    let w = b.width();
    let h = b.height();
    assert(0 <= k < w * h) by (nonlinear_arith)
        requires
            h >= 1,
            w >= 1,
            0 <= x - b.x_low < w,
            0 <= y - b.y_low < h,
            k == (x - b.x_low) * h + (y - b.y_low),
    ;
    lemma_fundamental_div_mod_converse(k, h, x - b.x_low, y - b.y_low);
}

/// Two different scan steps land on two different buffer cells. Together
/// with `lemma_scan_covers`, the scan of a box touches the cell of each of
/// its pixels exactly once, so the count of cells that receive a shape's
/// intensity equals the count of its pixels that pass the containment test.
pub proof fn lemma_scan_steps_distinct(b: BoundingBox, nx: u32, ny: u32, k1: int, k2: int)
    requires
        b.wf(nx, ny),
        0 <= k1 < scan_len(b),
        0 <= k2 < scan_len(b),
        k1 != k2,
    ensures
        buffer_index_spec(scan_x(b, k1), scan_y(b, k1), nx as int, ny as int)
            != buffer_index_spec(scan_x(b, k2), scan_y(b, k2), nx as int, ny as int),
{
    let h = b.height();
    lemma_scan_in_box(b, k1);
    lemma_scan_in_box(b, k2);
    lemma_fundamental_div_mod(k1, h);
    lemma_fundamental_div_mod(k2, h);
    if buffer_index_spec(scan_x(b, k1), scan_y(b, k1), nx as int, ny as int)
        == buffer_index_spec(scan_x(b, k2), scan_y(b, k2), nx as int, ny as int) {
        lemma_buffer_index_injective(
            scan_x(b, k1),
            scan_y(b, k1),
            scan_x(b, k2),
            scan_y(b, k2),
            nx as int,
            ny as int,
        );
        assert(k1 == k2) by (nonlinear_arith)
            requires
                h >= 1,
                k1 == h * (k1 / h) + k1 % h,
                k2 == h * (k2 / h) + k2 % h,
                k1 / h == k2 / h,
                k1 % h == k2 % h,
        ;
    }
}

/// Enumerate, in scan order, every pixel of box `b` with its buffer index:
/// the `k`-th element is `(scan_x(b, k), scan_y(b, k))` and its index in
/// the flat buffer of the `nx` by `ny` canvas.
pub fn scan_pixels(b: BoundingBox, nx: u32, ny: u32) -> (v: Vec<(u32, u32, usize)>)
    requires
        b.wf(nx, ny),
        nx * ny <= usize::MAX,
    ensures
        v@.len() == scan_len(b),
        forall|k: int| 0 <= k < v@.len() ==> (#[trigger] v@[k]).0 == scan_x(b, k),
        forall|k: int| 0 <= k < v@.len() ==> (#[trigger] v@[k]).1 == scan_y(b, k),
        forall|k: int| 0 <= k < v@.len() ==> (#[trigger] v@[k]).2 == buffer_index_spec(
            scan_x(b, k),
            scan_y(b, k),
            nx as int,
            ny as int,
        ),
        forall|k: int| 0 <= k < v@.len() ==> (#[trigger] v@[k]).2 < nx * ny,
{
    let h: u32 = b.y_high - b.y_low + 1;
    let mut v: Vec<(u32, u32, usize)> = Vec::new();
    let mut x: u32 = b.x_low;
    while x <= b.x_high
        invariant
            b.wf(nx, ny),
            nx * ny <= usize::MAX,
            h == b.height(),
            b.x_low <= x <= b.x_high + 1,
            v@.len() == (x - b.x_low) * b.height(),
            forall|k: int| 0 <= k < v@.len() ==> (#[trigger] v@[k]).0 == scan_x(b, k),
            forall|k: int| 0 <= k < v@.len() ==> (#[trigger] v@[k]).1 == scan_y(b, k),
            forall|k: int| 0 <= k < v@.len() ==> (#[trigger] v@[k]).2 == buffer_index_spec(
                scan_x(b, k),
                scan_y(b, k),
                nx as int,
                ny as int,
            ),
            forall|k: int| 0 <= k < v@.len() ==> (#[trigger] v@[k]).2 < nx * ny,
        decreases b.x_high + 1 - x,
    {
        let mut y: u32 = b.y_low;
        while y <= b.y_high
            invariant
                b.wf(nx, ny),
                nx * ny <= usize::MAX,
                h == b.height(),
                b.x_low <= x <= b.x_high,
                b.y_low <= y <= b.y_high + 1,
                v@.len() == (x - b.x_low) * b.height() + (y - b.y_low),
                forall|k: int| 0 <= k < v@.len() ==> (#[trigger] v@[k]).0 == scan_x(b, k),
                forall|k: int| 0 <= k < v@.len() ==> (#[trigger] v@[k]).1 == scan_y(b, k),
                forall|k: int| 0 <= k < v@.len() ==> (#[trigger] v@[k]).2 == buffer_index_spec(
                    scan_x(b, k),
                    scan_y(b, k),
                    nx as int,
                    ny as int,
                ),
                forall|k: int| 0 <= k < v@.len() ==> (#[trigger] v@[k]).2 < nx * ny,
            decreases b.y_high + 1 - y,
        {
            let i = buffer_index(x, y, nx, ny);
            proof {
                lemma_fundamental_div_mod_converse(
                    v@.len() as int,
                    b.height(),
                    x - b.x_low,
                    y - b.y_low,
                );
            }
            v.push((x, y, i));
            y = y + 1;
        }
        proof {
            assert((x - b.x_low) * b.height() + b.height() == (x + 1 - b.x_low) * b.height())
                by (nonlinear_arith);
        }
        x = x + 1;
    }
    v
}

} // verus!
