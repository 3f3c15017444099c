//! The link decoration.

use crate::color::Color;
use crate::env::{Env, KeyOrValue};
use crate::geometry::{Point, RoundedRect, Size};
use crate::length::Length;
use crate::paint::{
    colours_are, decorated, fills, is_border_visible, lemma_drawn_iff_visible,
    lemma_shapes_carry_the_border, painting, shapes_carry, strokes, PaintOp,
};
use crate::signal::{
    forwarded, forwards, lemma_repaint_on_hot_changed_only, lifecycle_actions, paint_requests,
    Action, Layout, LifeCycle,
};
use crate::theme::{
    background, background_name, link_background, link_background_key, link_hot_color,
    LINK_HOT_COLOR,
};
use vstd::prelude::*;
use vstd::std_specs::convert::IntoSpec;

verus! {

/// A decoration around one child widget: a background that follows the
/// pointer, and an optional rounded border.
pub struct Link<C> {
    inner: C,
    border_color: KeyOrValue<Color>,
    border_width: KeyOrValue<Length>,
    corner_radius: KeyOrValue<Length>,
}

/// What a [`Link`] holds.
pub struct LinkView<C> {
    /// The child widget.
    pub inner: C,
    /// The colour of the border.
    pub border_color: KeyOrValue<Color>,
    /// The width of the border.
    pub border_width: KeyOrValue<Length>,
    /// The radius of the corners of background and border.
    pub corner_radius: KeyOrValue<Length>,
}

impl<C> LinkView<C> {
    /// Whether the style is the one a new link has: the border has the
    /// theme's hot link colour and no width, and the corners are square.
    pub open spec fn has_default_style(self) -> bool {
        &&& self.border_color matches KeyOrValue::Key(key) && key@ == LINK_HOT_COLOR@
        &&& self.border_width == KeyOrValue::Concrete(Length { units: 0, frac_bits: 0 })
        &&& self.corner_radius == KeyOrValue::Concrete(Length { units: 0, frac_bits: 0 })
    }
}

impl<C> View for Link<C> {
    type V = LinkView<C>;

    closed spec fn view(&self) -> LinkView<C> {
        LinkView {
            inner: self.inner,
            border_color: self.border_color,
            border_width: self.border_width,
            corner_radius: self.corner_radius,
        }
    }
}

impl<C> Link<C> {
    /// A link around `inner` with the default style: the border has the
    /// theme's hot link colour and no width, and the corners are square.
    pub fn new(inner: C) -> (link: Link<C>)
        ensures
            link@.inner == inner,
            link@.has_default_style(),
    {
        Link {
            inner,
            border_color: KeyOrValue::Key(link_hot_color()),
            border_width: KeyOrValue::Concrete(Length::zero()),
            corner_radius: KeyOrValue::Concrete(Length::zero()),
        }
    }

    /// Whether the link draws anything of its own in `env`.
    pub open spec fn decorated(&self, hot: bool, env: &Env) -> bool {
        decorated(
            background(hot, env),
            self@.border_color.resolved(env),
            self@.border_width.resolved(env),
        )
    }

    /// Whether `env` holds everything that painting the link reads from it, and
    /// the border width can be halved where a shape is drawn.
    ///
    /// Painting reads the background colour of the hover state, the border
    /// colour and the border width; it reads the corner radius only if
    /// background or border shows.
    pub open spec fn paintable(&self, hot: bool, env: &Env) -> bool {
        &&& env.defines::<Color>(background_name(hot))
        &&& self@.border_color.resolvable(env)
        &&& self@.border_width.resolvable(env)
        &&& self.decorated(hot, env) ==> {
            &&& self@.corner_radius.resolvable(env)
            &&& self@.border_width.resolved(env).halvable()
        }
    }

    /// Whether [`Link::paint`] accepts the hover state and `env`.
    pub fn can_paint(&self, hot: bool, env: &Env) -> (b: bool)
        ensures
            b == self.paintable(hot, env),
    {
        let key = link_background_key(hot);
        if !env.has::<Color>(&key) || !self.border_color.is_resolvable(env)
            || !self.border_width.is_resolvable(env) {
            return false;
        }
        let background = link_background(hot, env);
        let border_color = self.border_color.resolve(env);
        let border_width = self.border_width.resolve(env);
        if background.is_visible() || is_border_visible(&border_color, &border_width) {
            self.corner_radius.is_resolvable(env) && border_width.can_halve()
        } else {
            true
        }
    }

    /// What is painted for the link, in order.
    ///
    /// The background is the theme's hot colour while the pointer is over the
    /// link and its cold colour otherwise.  The style values are resolved in
    /// `env` at every call.  If the border shows it is stroked, then if the
    /// background shows it is filled, both with the link's bounds moved inwards
    /// by half the border width and rounded by the corner radius.  The child
    /// always paints, and paints last.
    pub fn paint(&self, hot: bool, size: Size, env: &Env) -> (ops: Vec<PaintOp>)
        requires
            self.paintable(hot, env),
        ensures
            ops@ == painting(
                background(hot, env),
                self@.border_color.resolved(env),
                self@.border_width.resolved(env),
                self@.corner_radius.resolved(env),
                size,
            ),
            fills(ops@) <==> background(hot, env).alpha() > 0,
            strokes(ops@) <==> (self@.border_color.resolved(env).alpha() > 0
                && self@.border_width.resolved(env).units > 0),
            ops@.last() == PaintOp::Child,
            self.decorated(hot, env) ==> shapes_carry(
                ops@,
                self@.border_width.resolved(env),
                self@.corner_radius.resolved(env),
                size,
            ),
            self.decorated(hot, env) ==> forall|bits: nat|
                bits > self@.border_width.resolved(env).frac_bits ==> 2
                    * #[trigger] self@.border_width.resolved(env).halved().scaled(bits)
                    == self@.border_width.resolved(env).scaled(bits),
            colours_are(
                ops@,
                background(hot, env),
                self@.border_color.resolved(env),
                self@.border_width.resolved(env),
            ),
    {
        let background = link_background(hot, env);
        let border_color = self.border_color.resolve(env);
        let border_width = self.border_width.resolve(env);
        let visible_background = background.is_visible();
        let visible_border = is_border_visible(&border_color, &border_width);
        let mut ops: Vec<PaintOp> = Vec::new();
        if visible_background || visible_border {
            let corner_radius = self.corner_radius.resolve(env);
            let shape = RoundedRect::for_stroke(size, border_width, corner_radius);
            if visible_border {
                ops.push(PaintOp::Stroke { shape, color: border_color, width: border_width });
            }
            if visible_background {
                ops.push(PaintOp::Fill { shape, color: background });
            }
        }
        ops.push(PaintOp::Child);
        proof {
            let radius = self@.corner_radius.resolved(env);
            assert(ops@ =~= painting(background, border_color, border_width, radius, size));
            lemma_drawn_iff_visible(background, border_color, border_width, radius, size);
            if visible_background || visible_border {
                lemma_shapes_carry_the_border(background, border_color, border_width, radius, size);
            }
        }
        ops
    }

    /// The link with the given border.
    pub fn border<K: Into<KeyOrValue<Color>>, W: Into<KeyOrValue<Length>>>(
        self,
        color: K,
        width: W,
    ) -> (link: Link<C>)
        ensures
            K::obeys_into_spec() ==> link@.border_color == color.into_spec(),
            W::obeys_into_spec() ==> link@.border_width == width.into_spec(),
            link@.inner == self@.inner,
            link@.corner_radius == self@.corner_radius,
    {
        let mut link = self;
        link.set_border(color, width);
        link
    }

    /// Gives the link the given border.
    pub fn set_border<K: Into<KeyOrValue<Color>>, W: Into<KeyOrValue<Length>>>(
        &mut self,
        color: K,
        width: W,
    )
        ensures
            K::obeys_into_spec() ==> final(self)@.border_color == color.into_spec(),
            W::obeys_into_spec() ==> final(self)@.border_width == width.into_spec(),
            final(self)@.inner == old(self)@.inner,
            final(self)@.corner_radius == old(self)@.corner_radius,
    {
        self.border_color = color.into();
        self.border_width = width.into();
    }

    /// The link with fully rounded corners: the corner radius becomes 64
    /// points, whatever it was.
    pub fn circle(self) -> (link: Link<C>)
        ensures
            link@.corner_radius == KeyOrValue::Concrete(Length { units: 64, frac_bits: 0 }),
            link@.inner == self@.inner,
            link@.border_color == self@.border_color,
            link@.border_width == self@.border_width,
    {
        let mut link = self;
        link.set_rounded(Length::from_points(64));
        link
    }

    /// The link with the given corner radius.
    pub fn rounded<R: Into<KeyOrValue<Length>>>(self, radius: R) -> (link: Link<C>)
        ensures
            R::obeys_into_spec() ==> link@.corner_radius == radius.into_spec(),
            link@.inner == self@.inner,
            link@.border_color == self@.border_color,
            link@.border_width == self@.border_width,
    {
        let mut link = self;
        link.set_rounded(radius);
        link
    }

    /// Gives the link the given corner radius.
    pub fn set_rounded<R: Into<KeyOrValue<Length>>>(&mut self, radius: R)
        ensures
            R::obeys_into_spec() ==> final(self)@.corner_radius == radius.into_spec(),
            final(self)@.inner == old(self)@.inner,
            final(self)@.border_color == old(self)@.border_color,
            final(self)@.border_width == old(self)@.border_width,
    {
        self.corner_radius = radius.into();
    }

    /// The child widget.
    pub fn inner(&self) -> (inner: &C)
        ensures
            *inner == self@.inner,
    {
        &self.inner
    }

    /// The child widget, for the host to hand it what the link forwards.  The
    /// style stays as it is, whatever the host does to the child.
    pub fn inner_mut(&mut self) -> (inner: &mut C)
        ensures
            *inner == old(self)@.inner,
            final(self)@ == (LinkView { inner: *final(inner), ..old(self)@ }),
    {
        &mut self.inner
    }

    /// The child widget, without the link around it.
    pub fn into_inner(self) -> (inner: C)
        ensures
            inner == self@.inner,
    {
        self.inner
    }

    /// The colour of the border.
    pub fn border_color(&self) -> (color: &KeyOrValue<Color>)
        ensures
            *color == self@.border_color,
    {
        &self.border_color
    }

    /// The width of the border.
    pub fn border_width(&self) -> (width: &KeyOrValue<Length>)
        ensures
            *width == self@.border_width,
    {
        &self.border_width
    }

    /// The radius of the corners.
    pub fn corner_radius(&self) -> (radius: &KeyOrValue<Length>)
        ensures
            *radius == self@.corner_radius,
    {
        &self.corner_radius
    }

    /// The answer to an input event: the child gets it as it came, and the
    /// link does nothing of its own.
    pub fn event(&self) -> (actions: Vec<Action>)
        ensures
            actions@ == forwarded(),
    {
        let mut actions: Vec<Action> = Vec::new();
        actions.push(Action::Forward);
        actions
    }

    /// The answer to a life-cycle signal: one repaint request if the hover
    /// state has changed and none otherwise, and then the signal for the
    /// child.
    pub fn lifecycle(&self, event: &LifeCycle) -> (actions: Vec<Action>)
        ensures
            actions@ == lifecycle_actions(*event),
            paint_requests(actions@) == (if event.hot_changed() { 1nat } else { 0nat }),
            forwards(actions@) == 1,
    {
        proof {
            lemma_repaint_on_hot_changed_only(*event);
        }
        let mut actions: Vec<Action> = Vec::new();
        if event.is_hot_changed() {
            actions.push(Action::RequestPaint);
        }
        actions.push(Action::Forward);
        actions
    }

    /// The answer to a change of the application's data: the child gets the
    /// new data; the link keeps nothing that depends on the data.
    pub fn update(&self) -> (actions: Vec<Action>)
        ensures
            actions@ == forwarded(),
    {
        let mut actions: Vec<Action> = Vec::new();
        actions.push(Action::Forward);
        actions
    }

    /// The layout of the link around a child that reported `child_size` under
    /// the link's own constraints: the child sits at the link's origin, and
    /// the link is exactly as large as the child.
    pub fn layout(&self, child_size: Size) -> (layout: Layout)
        ensures
            layout.size == child_size,
            layout.child_origin == Point::origin(),
    {
        Layout { size: child_size, child_origin: Point::origin() }
    }
}

} // verus!
