//! The values a diagram can stand for: a length, a width/height pair, or a
//! width/height/length triple.

use vstd::prelude::*;

verus! {

/// A one-dimensional line of a given length.
///
/// A line is a bare magnitude with no orientation, so it can be compared and
/// ordered.
#[derive(Clone, Copy, Debug, PartialEq, Eq, PartialOrd, Ord)]
pub struct Line(pub usize);

/// A two-dimensional rectangle.
///
/// Rectangles have no equality or ordering: which edge was drawn as the width
/// and which as the height matters to the caller, and two drawings that are
/// rotations of each other are not claimed to be the same.
#[derive(Clone, Copy, Debug)]
pub struct Rectangle {
    /// Width: how many `--` wide the drawing is.
    pub w: usize,
    /// Height: how many `|` tall the drawing is.
    pub h: usize,
}

/// A three-dimensional cuboid. Like [`Rectangle`], it has no equality or
/// ordering.
#[derive(Clone, Copy, Debug)]
pub struct Cuboid {
    /// Width: how many `--` wide the drawing is.
    pub w: usize,
    /// Height: how many `|` tall the drawing is.
    pub h: usize,
    /// Length: how many `/` deep the drawing is.
    pub l: usize,
}

/// What a diagram was recognized as.
#[derive(Clone, Copy, Debug)]
pub enum Literal {
    /// A line, or a box drawn without any rows.
    Line(Line),
    /// A box whose top and bottom edges agree.
    Rectangle(Rectangle),
    /// A wireframe all of whose redundant measurements agree.
    Cuboid(Cuboid),
}

/// The mathematical value of a [`Literal`]: the same three shapes over
/// unbounded naturals.
pub enum Shape {
    Line { magnitude: nat },
    Rectangle { w: nat, h: nat },
    Cuboid { w: nat, h: nat, l: nat },
}

impl View for Line {
    type V = Shape;

    open spec fn view(&self) -> Shape {
        Shape::Line { magnitude: self.0 as nat }
    }
}

impl View for Rectangle {
    type V = Shape;

    open spec fn view(&self) -> Shape {
        Shape::Rectangle { w: self.w as nat, h: self.h as nat }
    }
}

impl View for Cuboid {
    type V = Shape;

    open spec fn view(&self) -> Shape {
        Shape::Cuboid { w: self.w as nat, h: self.h as nat, l: self.l as nat }
    }
}

impl View for Literal {
    type V = Shape;

    open spec fn view(&self) -> Shape {
        match *self {
            Literal::Line(line) => line@,
            Literal::Rectangle(r) => r@,
            Literal::Cuboid(c) => c@,
        }
    }
}

impl Rectangle {
    /// The area as a mathematical integer.
    pub open spec fn spec_area(&self) -> int {
        self.w * self.h
    }

    /// The area of the rectangle, `w * h`.
    pub fn area(&self) -> (a: usize)
        requires
            self.spec_area() <= usize::MAX,
        ensures
            a == self.spec_area(),
    {
        self.w * self.h
    }
}

impl Cuboid {
    /// The volume as a mathematical integer.
    pub open spec fn spec_volume(&self) -> int {
        self.w * self.h * self.l
    }

    /// The top face: as wide as the cuboid and as tall as the cuboid is long.
    pub open spec fn spec_top(&self) -> Rectangle {
        Rectangle { w: self.w, h: self.l }
    }

    /// The side face: as wide as the cuboid is long, and as tall as the cuboid.
    pub open spec fn spec_side(&self) -> Rectangle {
        Rectangle { w: self.l, h: self.h }
    }

    /// The front face: as wide and as tall as the cuboid.
    pub open spec fn spec_front(&self) -> Rectangle {
        Rectangle { w: self.w, h: self.h }
    }

    /// The volume of the cuboid, `w * h * l`.
    pub fn volume(&self) -> (v: usize)
        requires
            self.spec_volume() <= usize::MAX,
        ensures
            v == self.spec_volume(),
    {
        if self.l == 0 {
            assert(self.w * self.h * 0 == 0) by (nonlinear_arith);
            0
        } else {
            assert(self.w * self.h <= self.w * self.h * self.l) by (nonlinear_arith)
                requires
                    self.l >= 1,
            ;
            self.w * self.h * self.l
        }
    }

    /// The rectangle with the dimensions of the cuboid's top face. A pure
    /// projection of the fields: nothing is measured or validated again.
    pub fn top(&self) -> (r: Rectangle)
        ensures
            r == self.spec_top(),
    {
        Rectangle { w: self.w, h: self.l }
    }

    /// The rectangle with the dimensions of the cuboid's side face.
    pub fn side(&self) -> (r: Rectangle)
        ensures
            r == self.spec_side(),
    {
        Rectangle { w: self.l, h: self.h }
    }

    /// The rectangle with the dimensions of the cuboid's front face.
    pub fn front(&self) -> (r: Rectangle)
        ensures
            r == self.spec_front(),
    {
        Rectangle { w: self.w, h: self.h }
    }
}

} // verus!
