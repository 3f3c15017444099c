//! Sizes, points and the one shape a link draws.

use crate::length::Length;
use vstd::prelude::*;

verus! {

/// The extent of a widget.
#[derive(Clone, Copy, PartialEq, Eq, Structural, Debug)]
pub struct Size {
    pub width: Length,
    pub height: Length,
}

/// A position relative to a widget's own top-left corner.
#[derive(Clone, Copy, PartialEq, Eq, Structural, Debug)]
pub struct Point {
    pub x: Length,
    pub y: Length,
}

/// A rectangle with rounded corners, placed inside a widget's bounds.
///
/// The rectangle is the one that spans the widget from its origin to `size`,
/// moved inwards by `inset` on each of its four sides; a negative inset moves
/// the sides outwards.  Its corners are rounded with `radius`.
#[derive(Clone, Copy, PartialEq, Eq, Structural, Debug)]
pub struct RoundedRect {
    pub size: Size,
    pub inset: Length,
    pub radius: Length,
}

impl Size {
    /// The size with the given width and height.
    pub fn new(width: Length, height: Length) -> (size: Size)
        ensures
            size == (Size { width, height }),
    {
        Size { width, height }
    }
}

impl Point {
    /// The point at the given coordinates.
    pub fn new(x: Length, y: Length) -> (point: Point)
        ensures
            point == (Point { x, y }),
    {
        Point { x, y }
    }

    /// The top-left corner itself.
    pub open spec fn origin_spec() -> Point {
        Point { x: Length { units: 0, frac_bits: 0 }, y: Length { units: 0, frac_bits: 0 } }
    }

    /// The top-left corner itself.
    #[verifier::when_used_as_spec(origin_spec)]
    pub fn origin() -> (point: Point)
        ensures
            point == Point::origin_spec(),
    {
        Point { x: Length::zero(), y: Length::zero() }
    }
}

impl RoundedRect {
    /// The shape that carries a stroke of the given width inside `bounds`.
    ///
    /// A stroke lies half on either side of the outline it follows.  Moving the
    /// outline inwards by half the stroke width puts the outer edge of the
    /// stroke on the bounds, so that nothing is drawn outside them.
    pub open spec fn within(bounds: Size, stroke_width: Length, radius: Length) -> RoundedRect
        recommends
            stroke_width.halvable(),
    {
        RoundedRect { size: bounds, inset: stroke_width.halved(), radius }
    }

    /// The shape that carries a stroke of the given width inside `bounds`: the
    /// bounds moved inwards by exactly half the stroke width on each side, with
    /// the given corner radius.
    pub fn for_stroke(bounds: Size, stroke_width: Length, radius: Length) -> (shape: RoundedRect)
        requires
            stroke_width.halvable(),
        ensures
            shape == RoundedRect::within(bounds, stroke_width, radius),
            shape.size == bounds,
            shape.radius == radius,
            forall|bits: nat|
                bits > stroke_width.frac_bits ==> 2 * #[trigger] shape.inset.scaled(bits)
                    == stroke_width.scaled(bits),
    {
        RoundedRect { size: bounds, inset: stroke_width.half(), radius }
    }
}

} // verus!
