//! Shorthands that every widget has.

use crate::link::Link;
use vstd::prelude::*;

verus! {

/// A controller that calls `action` when its widget is clicked, with whatever
/// button.
pub struct ExClick<F> {
    /// What is called on a click.
    pub action: F,
}

/// A widget together with a controller that sees the widget's events first.
/// The controller has no part in layout or painting.
pub struct ControllerHost<W, K> {
    /// The widget.
    pub widget: W,
    /// The controller.
    pub controller: K,
}

impl<F> ExClick<F> {
    /// The controller that calls `action`.
    pub fn new(action: F) -> (controller: ExClick<F>)
        ensures
            controller.action == action,
    {
        ExClick { action }
    }
}

impl<W, K> ControllerHost<W, K> {
    /// `widget` under `controller`.
    pub fn new(widget: W, controller: K) -> (host: ControllerHost<W, K>)
        ensures
            host.widget == widget,
            host.controller == controller,
    {
        ControllerHost { widget, controller }
    }
}

/// Shorthands for putting a widget into a link and for reacting to clicks on it.
pub trait LinkExt: Sized {
    /// The widget inside a link with the default style.
    fn link(self) -> (link: Link<Self>)
        ensures
            link@.inner == self,
            link@.has_default_style(),
    {
        Link::new(self)
    }

    /// The widget under a controller that calls `f` on a click.  The widget
    /// itself is not changed, so it is laid out and painted as before.
    fn on_ex_click<F>(self, f: F) -> (host: ControllerHost<Self, ExClick<F>>)
        ensures
            host.widget == self,
            host.controller.action == f,
    {
        ControllerHost::new(self, ExClick::new(f))
    }
}

impl<W> LinkExt for W {
}

} // verus!
