use vstd::prelude::*;

use crate::geometry::{Length, Point, Rect};

verus! {

/// Relies on the layout of rgb's `RGB`: three public channel fields
/// `r`, `g`, `b`.
#[verifier::external_type_specification]
#[verifier::reject_recursive_types(T)]
pub struct ExRgb<T>(rgb::RGB<T>);

/// A basic rectangle with a stroke.
#[derive(Debug)]
pub struct Rectangle {
    pub bounds: Rect,
    pub color: rgb::RGB8,
    pub width: Length,
}

/// A piece of text placed at a point. It has no rendering.
#[derive(Debug)]
pub struct Text {
    pub position: Point,
    pub text: String,
    pub font_size: Length,
}

/// An open polyline with optional arrowheads at either end.
#[derive(Debug)]
pub struct Line {
    pub points: Vec<Point>,
    pub width: Length,
    pub start_arrow: Option<ArrowHead>,
    pub end_arrow: Option<ArrowHead>,
}

#[derive(Debug, Clone, Copy, PartialEq, Eq, Structural)]
pub enum ArrowHead {
    Solid,
}

impl Default for Text {
    fn default() -> (r: Text)
        ensures
            r.position == (Point { x: 0, y: 0 }),
            r.text@.len() == 0,
            r.font_size == Length(0, crate::geometry::Unit::Raw),
    {
        Text { position: Point::default(), text: String::new(), font_size: Length::default() }
    }
}

impl Default for Line {
    fn default() -> (r: Line)
        ensures
            r.points@.len() == 0,
            r.width == Length(0, crate::geometry::Unit::Raw),
            r.start_arrow.is_none(),
            r.end_arrow.is_none(),
    {
        Line { points: Vec::new(), width: Length::default(), start_arrow: None, end_arrow: None }
    }
}

} // verus!
