//! Pure geometric value types.
//!
//! Shapes carry no transform of their own; a transform is supplied when
//! a shape is drawn or used as a layer clip.

use vstd::prelude::*;
use crate::affine::PointModel;
use crate::scalar::Scalar;

verus! {

/// A point in the plane.
#[derive(Clone, Copy, Debug, PartialEq, Eq, Structural)]
pub struct Point {
    pub x: Scalar,
    pub y: Scalar,
}

impl Point {
    /// Both coordinates are well formed.
    pub open spec fn wf(self) -> bool {
        self.x.wf() && self.y.wf()
    }

    /// Both coordinates lie within the coordinate budget.
    pub open spec fn in_budget(self) -> bool {
        self.x.in_budget() && self.y.in_budget()
    }

    /// The point with the given coordinates.
    pub fn new(x: Scalar, y: Scalar) -> (p: Point)
        ensures
            p == (Point { x, y }),
    {
        Point { x, y }
    }
}

/// The homogeneous counterpart of a point: `(x/w, y/w)`.
pub open spec fn point_model(p: Point) -> PointModel {
    PointModel { x: p.x.num * p.y.den, y: p.y.num * p.x.den, w: p.x.den * p.y.den }
}

/// A circle given by its center and radius.
#[derive(Clone, Copy, Debug, PartialEq, Eq, Structural)]
pub struct Circle {
    pub center: Point,
    pub radius: Scalar,
}

/// An axis-aligned rectangle given by two opposite corners.
#[derive(Clone, Copy, Debug, PartialEq, Eq, Structural)]
pub struct Rectangle {
    pub a: Point,
    pub b: Point,
}

/// An axis-aligned rectangle with rounded corners.
#[derive(Clone, Copy, Debug, PartialEq, Eq, Structural)]
pub struct RoundedRectangle {
    pub a: Point,
    pub b: Point,
    pub radius: Scalar,
}

/// The closed set of shapes the library can lower into a command.
#[derive(Clone, Copy, Debug, PartialEq, Eq, Structural)]
pub enum Shape {
    Circle(Circle),
    Rectangle(Rectangle),
    RoundedRectangle(RoundedRectangle),
}

/// A geometric value that lowers into the closed [`Shape`] set.
pub trait IntoShape: Sized {
    /// The closed representation of this value.
    spec fn shape(self) -> Shape;

    /// Lower this value into its closed representation.
    fn into_shape(self) -> (s: Shape)
        ensures
            s == self.shape(),
    ;
}

impl IntoShape for Circle {
    open spec fn shape(self) -> Shape {
        Shape::Circle(self)
    }

    fn into_shape(self) -> Shape {
        Shape::Circle(self)
    }
}

impl IntoShape for Rectangle {
    open spec fn shape(self) -> Shape {
        Shape::Rectangle(self)
    }

    fn into_shape(self) -> Shape {
        Shape::Rectangle(self)
    }
}

impl IntoShape for RoundedRectangle {
    open spec fn shape(self) -> Shape {
        Shape::RoundedRectangle(self)
    }

    fn into_shape(self) -> Shape {
        Shape::RoundedRectangle(self)
    }
}

impl IntoShape for Shape {
    open spec fn shape(self) -> Shape {
        self
    }

    fn into_shape(self) -> Shape {
        self
    }
}

} // verus!
