//! Exact-value tests of the integer core: clamping, bounding boxes, buffer
//! indexing and the scan order.

use shepplogan::{buffer_index, clamp_axis, max4, min4, scan_pixels, BoundingBox};

#[test]
fn clamp_axis_pins_low_inside_high() {
    assert_eq!(clamp_axis(-5, 10), 0);
    assert_eq!(clamp_axis(0, 10), 0);
    assert_eq!(clamp_axis(3, 10), 3);
    assert_eq!(clamp_axis(9, 10), 9);
    assert_eq!(clamp_axis(10, 10), 9);
    assert_eq!(clamp_axis(1000, 10), 9);
}

#[test]
fn clamp_axis_degenerate_dimension() {
    assert_eq!(clamp_axis(-3, 0), 0);
    assert_eq!(clamp_axis(0, 0), 0);
    assert_eq!(clamp_axis(7, 0), 0);
}

#[test]
fn bounding_box_from_edges() {
    let bbox: BoundingBox = (1, 2, 3, 4).into();
    assert_eq!(bbox.x_low, 1);
    assert_eq!(bbox.x_high, 2);
    assert_eq!(bbox.y_low, 3);
    assert_eq!(bbox.y_high, 4);
    assert_eq!(
        BoundingBox { x_low: 1, x_high: 2, y_low: 3, y_high: 4 },
        bbox
    );
}

#[test]
fn bounding_box_from_candidates_clamps_each_edge() {
    let b = BoundingBox::from_candidates(-1, 5, 2, 9, 4, 4);
    assert_eq!(b, BoundingBox { x_low: 0, x_high: 3, y_low: 2, y_high: 3 });
}

#[test]
fn bounding_box_outside_canvas_collapses_to_edge() {
    // A shape entirely right of and above the canvas.
    let b = BoundingBox::from_candidates(12, 20, 9, 11, 8, 6);
    assert_eq!(b, BoundingBox { x_low: 7, x_high: 7, y_low: 5, y_high: 5 });
    // Entirely left of and below it.
    let b = BoundingBox::from_candidates(-9, -2, -5, -1, 8, 6);
    assert_eq!(b, BoundingBox { x_low: 0, x_high: 0, y_low: 0, y_high: 0 });
}

#[test]
fn bounding_box_in_range_for_ordered_candidates() {
    // The clamped box never leaves the canvas and keeps its edges ordered.
    let dims: [(u32, u32); 3] = [(1, 1), (4, 7), (256, 320)];
    let cands: [(i64, i64); 4] = [(-100, -50), (-3, 3), (5, 500), (700, 900)];
    for &(nx, ny) in dims.iter() {
        for &(lo, hi) in cands.iter() {
            let b = BoundingBox::from_candidates(lo, hi, lo, hi, nx, ny);
            assert!(b.x_low <= b.x_high && b.x_high < nx);
            assert!(b.y_low <= b.y_high && b.y_high < ny);
        }
    }
}

#[test]
fn min4_max4_pick_extremes() {
    assert_eq!(min4(3, -1, 7, 2), -1);
    assert_eq!(max4(3, -1, 7, 2), 7);
    assert_eq!(min4(5, 5, 5, 5), 5);
    assert_eq!(max4(5, 5, 5, 5), 5);
    assert_eq!(min4(-8, -3, -9, -2), -9);
    assert_eq!(max4(-8, -3, -9, -2), -2);
}

#[test]
fn buffer_index_flips_rows() {
    // On a 4 by 4 canvas, (0, 0) is the first pixel of the bottom row.
    assert_eq!(buffer_index(0, 0, 4, 4), 12);
    assert_eq!(buffer_index(3, 0, 4, 4), 15);
    assert_eq!(buffer_index(0, 3, 4, 4), 0);
    assert_eq!(buffer_index(3, 3, 4, 4), 3);
    // Non-square canvas.
    assert_eq!(buffer_index(2, 1, 5, 3), 7);
}

#[test]
fn buffer_index_covers_buffer_once() {
    let nx: u32 = 7;
    let ny: u32 = 5;
    let mut hits: Vec<u32> = vec![0; (nx * ny) as usize];
    for x in 0..nx {
        for y in 0..ny {
            hits[buffer_index(x, y, nx, ny)] += 1;
        }
    }
    assert!(hits.iter().all(|&h| h == 1));
}

#[test]
fn scan_pixels_orders_column_by_column() {
    let b = BoundingBox { x_low: 1, x_high: 2, y_low: 0, y_high: 1 };
    let v = scan_pixels(b, 4, 4);
    assert_eq!(
        v,
        vec![
            (1, 0, buffer_index(1, 0, 4, 4)),
            (1, 1, buffer_index(1, 1, 4, 4)),
            (2, 0, buffer_index(2, 0, 4, 4)),
            (2, 1, buffer_index(2, 1, 4, 4)),
        ]
    );
}

#[test]
fn scan_pixels_visits_every_box_pixel_once() {
    let b = BoundingBox { x_low: 2, x_high: 6, y_low: 1, y_high: 7 };
    let nx: u32 = 9;
    let ny: u32 = 9;
    let v = scan_pixels(b, nx, ny);
    assert_eq!(v.len(), 5 * 7);
    let mut seen: Vec<bool> = vec![false; (nx * ny) as usize];
    for &(x, y, i) in v.iter() {
        assert!(b.x_low <= x && x <= b.x_high);
        assert!(b.y_low <= y && y <= b.y_high);
        assert_eq!(i, buffer_index(x, y, nx, ny));
        assert!(!seen[i]);
        seen[i] = true;
    }
}

#[test]
fn scan_pixels_single_pixel_box() {
    let b = BoundingBox { x_low: 0, x_high: 0, y_low: 0, y_high: 0 };
    let v = scan_pixels(b, 1, 1);
    assert_eq!(v, vec![(0, 0, 0)]);
}
