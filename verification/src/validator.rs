//! The dimension validator: the cross-check that runs when a box or a cuboid
//! is closed. Measurements of the same edge must be equal; a disagreement is
//! reported, never averaged, clamped or resolved by picking one of the two.

use crate::error::{Edge, Fault, RecognitionError};
use crate::shapes::{Cuboid, Rectangle, Shape};
use crate::state::{Counters, Tally};
use vstd::prelude::*;

verus! {

/// What closing a box yields: the rectangle if the bottom edge is as wide as
/// the top edge, and otherwise the mismatch of the width.
pub open spec fn rectangle_verdict(w: nat, h: nat, bottom_w: nat) -> Result<Shape, Fault> {
    if w != bottom_w {
        Err(Fault::DimensionMismatch { edge: Edge::Width, expected: w, actual: bottom_w })
    } else {
        Ok(Shape::Rectangle { w, h })
    }
}

/// What closing a cuboid yields. The four comparisons are made in a fixed
/// order (front width, bottom width, height, length) and the first one that
/// fails is the one reported.
pub open spec fn cuboid_verdict(t: Tally) -> Result<Shape, Fault> {
    if t.w != t.mid_w {
        Err(Fault::DimensionMismatch { edge: Edge::Width, expected: t.w, actual: t.mid_w })
    } else if t.w != t.bottom_w {
        Err(Fault::DimensionMismatch { edge: Edge::Width, expected: t.w, actual: t.bottom_w })
    } else if t.h != t.bottom_h {
        Err(Fault::DimensionMismatch { edge: Edge::Height, expected: t.h, actual: t.bottom_h })
    } else if t.l != t.bottom_l {
        Err(Fault::DimensionMismatch { edge: Edge::Length, expected: t.l, actual: t.bottom_l })
    } else {
        Ok(Shape::Cuboid { w: t.w, h: t.h, l: t.l })
    }
}

/// Compares two measurements of `edge`.
pub fn check_edge(edge: Edge, expected: usize, actual: usize) -> (r: Result<(), RecognitionError>)
    ensures
        r == if expected == actual {
            Ok::<(), RecognitionError>(())
        } else {
            Err::<(), RecognitionError>(
                RecognitionError::DimensionMismatch { edge, expected, actual },
            )
        },
{
    if expected == actual {
        Ok(())
    } else {
        Err(RecognitionError::DimensionMismatch { edge, expected, actual })
    }
}

/// Closes a box: builds the rectangle only if its two widths agree.
pub fn validate_rectangle(w: usize, h: usize, bottom_w: usize) -> (r: Result<
    Rectangle,
    RecognitionError,
>)
    ensures
        match r {
            Ok(rect) => rectangle_verdict(w as nat, h as nat, bottom_w as nat) == Ok::<Shape, Fault>(
                rect@,
            ),
            Err(e) => rectangle_verdict(w as nat, h as nat, bottom_w as nat) == Err::<Shape, Fault>(
                e@,
            ),
        },
{
    match check_edge(Edge::Width, w, bottom_w) {
        Ok(()) => Ok(Rectangle { w, h }),
        Err(e) => Err(e),
    }
}

/// Closes a cuboid: builds it only if all four pairs of measurements agree.
pub fn validate_cuboid(c: &Counters) -> (r: Result<Cuboid, RecognitionError>)
    ensures
        match r {
            Ok(cuboid) => cuboid_verdict(c@) == Ok::<Shape, Fault>(cuboid@),
            Err(e) => cuboid_verdict(c@) == Err::<Shape, Fault>(e@),
        },
{
    match check_edge(Edge::Width, c.w, c.mid_w) {
        Ok(()) => {},
        Err(e) => {
            return Err(e);
        },
    }
    match check_edge(Edge::Width, c.w, c.bottom_w) {
        Ok(()) => {},
        Err(e) => {
            return Err(e);
        },
    }
    match check_edge(Edge::Height, c.h, c.bottom_h) {
        Ok(()) => {},
        Err(e) => {
            return Err(e);
        },
    }
    match check_edge(Edge::Length, c.l, c.bottom_l) {
        Ok(()) => {},
        Err(e) => {
            return Err(e);
        },
    }
    Ok(Cuboid { w: c.w, h: c.h, l: c.l })
}

} // verus!
