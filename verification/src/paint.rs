//! What a link draws: at most one stroke and one fill of the same shape,
//! then its child.

use crate::color::Color;
use crate::geometry::{RoundedRect, Size};
use crate::length::{lemma_half_is_exact, Length};
use vstd::prelude::*;

verus! {

/// One step of painting a link, in the order in which the host performs them.
#[derive(Clone, Copy, PartialEq, Eq, Structural, Debug)]
pub enum PaintOp {
    /// Stroke the outline of `shape` with `color`, `width` wide.
    Stroke { shape: RoundedRect, color: Color, width: Length },
    /// Fill `shape` with `color`.
    Fill { shape: RoundedRect, color: Color },
    /// Let the child paint itself.
    Child,
}

/// A border shows exactly when its colour is visible and its width is
/// greater than zero.
pub open spec fn border_visible(color: Color, width: Length) -> bool {
    color.visible() && width.positive()
}

/// Whether a link with this background and border draws anything of its own.
pub open spec fn decorated(background: Color, border_color: Color, border_width: Length) -> bool {
    background.visible() || border_visible(border_color, border_width)
}

/// The stroke of the border, if the border shows.
pub open spec fn border_ops(shape: RoundedRect, color: Color, width: Length) -> Seq<PaintOp> {
    if border_visible(color, width) {
        seq![PaintOp::Stroke { shape, color, width }]
    } else {
        Seq::empty()
    }
}

/// The fill of the background, if the background shows.
pub open spec fn background_ops(shape: RoundedRect, color: Color) -> Seq<PaintOp> {
    if color.visible() {
        seq![PaintOp::Fill { shape, color }]
    } else {
        Seq::empty()
    }
}

/// Everything that is painted for a link of the given size: the border is
/// stroked if it shows, then the background is filled if it shows, both with
/// the shape that carries the border inside the link's bounds, and then the
/// child paints on top.
pub open spec fn painting(
    background: Color,
    border_color: Color,
    border_width: Length,
    corner_radius: Length,
    size: Size,
) -> Seq<PaintOp> {
    let shape = RoundedRect::within(size, border_width, corner_radius);
    border_ops(shape, border_color, border_width) + background_ops(shape, background)
        + seq![PaintOp::Child]
}

/// Whether a border with this colour and width shows.
pub fn is_border_visible(color: &Color, width: &Length) -> (b: bool)
    ensures
        b == border_visible(*color, *width),
        b == (color.alpha() > 0 && width.units > 0),
{
    color.is_visible() && width.is_positive()
}

/// Whether a list of operations fills a shape.
pub open spec fn fills(ops: Seq<PaintOp>) -> bool {
    exists|i: int| 0 <= i < ops.len() && (#[trigger] ops[i]) is Fill
}

/// Whether a list of operations strokes a shape.
pub open spec fn strokes(ops: Seq<PaintOp>) -> bool {
    exists|i: int| 0 <= i < ops.len() && (#[trigger] ops[i]) is Stroke
}

/// The background is drawn exactly when its alpha channel is not zero, and the
/// border exactly when the alpha channel of its colour is not zero and its
/// width is greater than zero.
pub proof fn lemma_drawn_iff_visible(
    background: Color,
    border_color: Color,
    border_width: Length,
    corner_radius: Length,
    size: Size,
)
    ensures
        fills(painting(background, border_color, border_width, corner_radius, size)) <==> background.alpha()
            > 0,
        strokes(painting(background, border_color, border_width, corner_radius, size)) <==> (
        border_color.alpha() > 0 && border_width.units > 0),
{
    let ops = painting(background, border_color, border_width, corner_radius, size);
    let shape = RoundedRect::within(size, border_width, corner_radius);
    let border = border_ops(shape, border_color, border_width);
    let fill = background_ops(shape, background);
    if background.visible() {
        assert(ops[border.len() as int] is Fill);
    }
    if border_visible(border_color, border_width) {
        assert(ops[0] is Stroke);
    }
}

/// The shape that an operation draws, if it draws one.
pub open spec fn shape_of(op: PaintOp) -> Option<RoundedRect> {
    match op {
        PaintOp::Stroke { shape, .. } => Some(shape),
        PaintOp::Fill { shape, .. } => Some(shape),
        PaintOp::Child => None,
    }
}

/// Whether every shape that a list of operations draws spans `size`, lies
/// inside it by half of `border_width` on each side, and has corners of
/// `corner_radius`.
pub open spec fn shapes_carry(
    ops: Seq<PaintOp>,
    border_width: Length,
    corner_radius: Length,
    size: Size,
) -> bool {
    forall|i: int|
        0 <= i < ops.len() ==> (#[trigger] shape_of(ops[i]) matches Some(shape) ==> {
            &&& shape.size == size
            &&& shape.inset == border_width.halved()
            &&& shape.radius == corner_radius
        })
}

/// Whether a list of operations strokes with nothing but the given colour and
/// width, and fills with nothing but the given colour.
pub open spec fn colours_are(
    ops: Seq<PaintOp>,
    background: Color,
    border_color: Color,
    border_width: Length,
) -> bool {
    forall|i: int|
        0 <= i < ops.len() ==> match #[trigger] ops[i] {
            PaintOp::Stroke { color, width, .. } => color == border_color && width == border_width,
            PaintOp::Fill { color, .. } => color == background,
            PaintOp::Child => true,
        }
}

/// Whatever is drawn, is drawn with the shape that lies inside the bounds by
/// exactly half the border width on each side: twice its inset is the border
/// width.  The stroke has the border's colour and width, the fill has the
/// background colour, and the child paints last.
pub proof fn lemma_shapes_carry_the_border(
    background: Color,
    border_color: Color,
    border_width: Length,
    corner_radius: Length,
    size: Size,
)
    requires
        border_width.halvable(),
    ensures
        shapes_carry(
            painting(background, border_color, border_width, corner_radius, size),
            border_width,
            corner_radius,
            size,
        ),
        colours_are(
            painting(background, border_color, border_width, corner_radius, size),
            background,
            border_color,
            border_width,
        ),
        painting(background, border_color, border_width, corner_radius, size).last() == PaintOp::Child,
        forall|bits: nat|
            bits > border_width.frac_bits ==> 2 * #[trigger] border_width.halved().scaled(bits)
                == border_width.scaled(bits),
{
    assert forall|bits: nat| bits > border_width.frac_bits implies 2
        * #[trigger] border_width.halved().scaled(bits) == border_width.scaled(bits) by {
        lemma_half_is_exact(border_width, bits);
    }
}

} // verus!
