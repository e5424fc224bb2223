//! Shapes in the normalized design space, with fixed-point parameters.
//!
//! A shape is authored in the `[-1, 1] x [-1, 1]` design square and carries
//! a signed intensity; overlapping shapes combine by addition, so a
//! negative intensity carves a region out of an earlier positive one. All
//! parameters are held in fixed point, as signed multiples of
//! `1 / PARAM_ONE` of the design unit, which keeps every preset value
//! exact; the caller divides by [`PARAM_ONE`] when it projects a shape onto
//! a pixel canvas.

use vstd::prelude::*;

verus! {

/// Number of fixed-point steps per design unit: a parameter field holding
/// `v` stands for the real value `v / PARAM_ONE`.
pub const PARAM_ONE: i64 = 10000;

/// An ellipse in the design square. `major_axis` and `minor_axis` are full
/// axis lengths; `theta` is the rotation in degrees. All fields are fixed
/// point, in steps of `1 / PARAM_ONE`.
#[derive(Clone, Copy, PartialEq, Eq, Structural, Debug)]
pub struct Ellipse {
    /// x-coordinate of the center.
    pub center_x: i64,
    /// y-coordinate of the center.
    pub center_y: i64,
    /// Full length of the major axis.
    pub major_axis: i64,
    /// Full length of the minor axis.
    pub minor_axis: i64,
    /// Rotation angle in degrees.
    pub theta: i64,
}

/// A rectangle in the design square, rotated by `theta` degrees about its
/// center. All fields are fixed point, in steps of `1 / PARAM_ONE`.
#[derive(Clone, Copy, PartialEq, Eq, Structural, Debug)]
pub struct Rectangle {
    /// x-coordinate of the center.
    pub center_x: i64,
    /// y-coordinate of the center.
    pub center_y: i64,
    /// Full width before rotation.
    pub width: i64,
    /// Full height before rotation.
    pub height: i64,
    /// Rotation angle in degrees.
    pub theta: i64,
}

/// The closed set of shape kinds the rasterizer knows.
#[derive(Clone, Copy, PartialEq, Eq, Structural, Debug)]
pub enum ShapeKind {
    /// An ellipse.
    Ellipse(Ellipse),
    /// A rotated rectangle.
    Rectangle(Rectangle),
}

/// A shape of either kind together with its signed intensity, in the same
/// fixed-point steps as the geometry.
#[derive(Clone, Copy, PartialEq, Eq, Structural, Debug)]
pub struct Shape {
    /// Signed intensity the shape contributes to every pixel inside it.
    pub intensity: i64,
    /// The geometry of the shape.
    pub kind: ShapeKind,
}

impl Ellipse {
    /// Assemble an ellipse from its five parameters.
    pub fn new(center_x: i64, center_y: i64, major_axis: i64, minor_axis: i64, theta: i64) -> (e:
        Ellipse)
        ensures
            e == (Ellipse { center_x, center_y, major_axis, minor_axis, theta }),
    {
        Ellipse { center_x, center_y, major_axis, minor_axis, theta }
    }
}

impl Rectangle {
    /// Assemble a rectangle from its five parameters.
    pub fn new(center_x: i64, center_y: i64, width: i64, height: i64, theta: i64) -> (r: Rectangle)
        ensures
            r == (Rectangle { center_x, center_y, width, height, theta }),
    {
        Rectangle { center_x, center_y, width, height, theta }
    }
}

impl Shape {
    /// An ellipse of the given geometry and intensity.
    pub fn ellipse(
        center_x: i64,
        center_y: i64,
        major_axis: i64,
        minor_axis: i64,
        theta: i64,
        intensity: i64,
    ) -> (s: Shape)
        ensures
            s == (Shape {
                intensity,
                kind: ShapeKind::Ellipse(
                    Ellipse { center_x, center_y, major_axis, minor_axis, theta },
                ),
            }),
    {
        Shape {
            intensity,
            kind: ShapeKind::Ellipse(Ellipse::new(center_x, center_y, major_axis, minor_axis, theta)),
        }
    }

    /// A rectangle of the given geometry and intensity.
    pub fn rectangle(
        center_x: i64,
        center_y: i64,
        width: i64,
        height: i64,
        theta: i64,
        intensity: i64,
    ) -> (s: Shape)
        ensures
            s == (Shape {
                intensity,
                kind: ShapeKind::Rectangle(Rectangle { center_x, center_y, width, height, theta }),
            }),
    {
        Shape {
            intensity,
            kind: ShapeKind::Rectangle(Rectangle::new(center_x, center_y, width, height, theta)),
        }
    }

    /// The intensity the shape adds to each of its pixels.
    pub fn intensity(&self) -> (r: i64)
        ensures
            r == self.intensity,
    {
        self.intensity
    }
}

} // verus!
