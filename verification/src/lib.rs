//! Integer core of a Shepp-Logan phantom renderer.
//!
//! A phantom is a synthetic raster image built by summing the signed
//! intensities of geometric shapes (ellipses, rectangles) that are authored
//! in the normalized `[-1, 1] x [-1, 1]` design square and projected onto a
//! pixel canvas. This crate holds the exact, integer-valued part of that
//! pipeline: the clamped pixel bounding box, the row-flipped buffer index
//! arithmetic and the bounding-box scan order of the rasterizer, and the
//! fixed-point parameter tables of the two classic ten-ellipse presets.
//! The floating-point kernels (trigonometric projection, containment tests,
//! intensity accumulation) live with the caller, which feeds their rounded
//! results through the functions verified here.

mod boundingbox;
mod raster;
mod shape;
mod shepplogan;

pub use crate::boundingbox::{
    clamp_axis, clamp_spec, lemma_clamp_in_range, lemma_clamp_monotone, max4, min4, BoundingBox,
};
pub use crate::raster::{
    buffer_index, buffer_index_spec, lemma_buffer_index_in_range, lemma_buffer_index_injective,
    lemma_scan_covers, lemma_scan_in_box, lemma_scan_steps_distinct, scan_len, scan_pixels,
    scan_x, scan_y,
};
pub use crate::shape::{Ellipse, Rectangle, Shape, ShapeKind, PARAM_ONE};
pub use crate::shepplogan::{
    lemma_presets_share_geometry, preset_entry, shepplogan, shepplogan_modified,
    shepplogan_modified_spec, shepplogan_spec,
};
