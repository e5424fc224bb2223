//! The two classic ten-ellipse head phantoms.
//!
//! Both presets are fixed tables of ten ellipses. The original table is the
//! head section of Shepp and Logan, whose rendered values span `0.0` to
//! `2.0`; the modified table keeps the same geometry with higher-contrast
//! intensities spanning `0.0` to `1.0`. Every parameter is an exact
//! multiple of `1 / PARAM_ONE`, so the tables are held and pinned down here
//! bit for bit; the caller turns them into real values when rendering.

use vstd::prelude::*;

verus! {

use crate::shape::{Ellipse, Shape, ShapeKind};

/// One ellipse-shape entry of a preset table, from its fixed-point
/// parameters.
pub open spec fn preset_entry(
    center_x: i64,
    center_y: i64,
    major_axis: i64,
    minor_axis: i64,
    theta: i64,
    intensity: i64,
) -> Shape {
    Shape {
        intensity,
        kind: ShapeKind::Ellipse(Ellipse { center_x, center_y, major_axis, minor_axis, theta }),
    }
}

/// The original Shepp-Logan table: ten ellipses, listed small features
/// first, with the two large carving and enclosing ellipses last.
pub open spec fn shepplogan_spec() -> Seq<Shape> {
    seq![
        preset_entry(0, 3500, 2100, 2500, 0, 100),
        preset_entry(0, 1000, 460, 460, 0, 100),
        preset_entry(0, -1000i64, 460, 460, 0, 100),
        preset_entry(-800i64, -6050i64, 460, 230, 0, 100),
        preset_entry(0, -6050i64, 230, 230, 0, 100),
        preset_entry(600, -6050i64, 230, 460, 0, 100),
        preset_entry(2200, 0, 1100, 3100, -180000i64, -200i64),
        preset_entry(-2200i64, 0, 1600, 4100, 180000, -200i64),
        preset_entry(0, -184i64, 6624, 8740, 0, -9800i64),
        preset_entry(0, 0, 6900, 9200, 0, 20000),
    ]
}

/// The modified table: the same ten ellipses with the higher-contrast
/// intensities.
pub open spec fn shepplogan_modified_spec() -> Seq<Shape> {
    seq![
        preset_entry(0, 3500, 2100, 2500, 0, 1000),
        preset_entry(0, 1000, 460, 460, 0, 1000),
        preset_entry(0, -1000i64, 460, 460, 0, 1000),
        preset_entry(-800i64, -6050i64, 460, 230, 0, 1000),
        preset_entry(0, -6050i64, 230, 230, 0, 1000),
        preset_entry(600, -6050i64, 230, 460, 0, 1000),
        preset_entry(2200, 0, 1100, 3100, -180000i64, -2000i64),
        preset_entry(-2200i64, 0, 1600, 4100, 180000, -2000i64),
        preset_entry(0, -184i64, 6624, 8740, 0, -8000i64),
        preset_entry(0, 0, 6900, 9200, 0, 10000),
    ]
}

/// The original Shepp-Logan phantom: the fixed table of ten ellipses whose
/// rendered dynamic range is `0.0` to `2.0`.
pub fn shepplogan() -> (v: Vec<Shape>)
    ensures
        v@ == shepplogan_spec(),
{
    let mut v: Vec<Shape> = Vec::new();
    v.push(Shape::ellipse(0, 3500, 2100, 2500, 0, 100));
    v.push(Shape::ellipse(0, 1000, 460, 460, 0, 100));
    v.push(Shape::ellipse(0, -1000, 460, 460, 0, 100));
    v.push(Shape::ellipse(-800, -6050, 460, 230, 0, 100));
    v.push(Shape::ellipse(0, -6050, 230, 230, 0, 100));
    v.push(Shape::ellipse(600, -6050, 230, 460, 0, 100));
    v.push(Shape::ellipse(2200, 0, 1100, 3100, -180000, -200));
    v.push(Shape::ellipse(-2200, 0, 1600, 4100, 180000, -200));
    v.push(Shape::ellipse(0, -184, 6624, 8740, 0, -9800));
    v.push(Shape::ellipse(0, 0, 6900, 9200, 0, 20000));
    proof {
        assert(v@ =~= shepplogan_spec());
    }
    v
}

/// The modified Shepp-Logan phantom with increased contrast: the fixed
/// table of ten ellipses whose rendered dynamic range is `0.0` to `1.0`.
pub fn shepplogan_modified() -> (v: Vec<Shape>)
    ensures
        v@ == shepplogan_modified_spec(),
{
    let mut v: Vec<Shape> = Vec::new();
    v.push(Shape::ellipse(0, 3500, 2100, 2500, 0, 1000));
    v.push(Shape::ellipse(0, 1000, 460, 460, 0, 1000));
    v.push(Shape::ellipse(0, -1000, 460, 460, 0, 1000));
    v.push(Shape::ellipse(-800, -6050, 460, 230, 0, 1000));
    v.push(Shape::ellipse(0, -6050, 230, 230, 0, 1000));
    v.push(Shape::ellipse(600, -6050, 230, 460, 0, 1000));
    v.push(Shape::ellipse(2200, 0, 1100, 3100, -180000, -2000));
    v.push(Shape::ellipse(-2200, 0, 1600, 4100, 180000, -2000));
    v.push(Shape::ellipse(0, -184, 6624, 8740, 0, -8000));
    v.push(Shape::ellipse(0, 0, 6900, 9200, 0, 10000));
    proof {
        assert(v@ =~= shepplogan_modified_spec());
    }
    v
}

/// The two tables describe the same geometry: entry by entry, only the
/// intensity differs between the original and the modified phantom.
pub proof fn lemma_presets_share_geometry()
    ensures
        shepplogan_spec().len() == shepplogan_modified_spec().len(),
        forall|i: int| 0 <= i < shepplogan_spec().len() ==> #[trigger] shepplogan_spec()[i].kind
            == shepplogan_modified_spec()[i].kind,
{
}

} // verus!
