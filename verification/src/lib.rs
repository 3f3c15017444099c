//! The decision core of a hover-sensitive link decoration for retained-mode
//! widget trees.
//!
//! A [`Link`] wraps one child widget and carries three style values: a border
//! colour, a border width and a corner radius.  The host toolkit owns the
//! event loop, the theme and the drawing surface; this crate decides, for each
//! call the host makes, what the link asks of the host in return: which
//! signals it forwards, when it requests a repaint, where it places its child,
//! and which shapes it strokes and fills before the child paints.
//!
//! Every function is verified against a contract over plain mathematical
//! values, so the behaviour of the decoration is fixed independently of the
//! toolkit that performs it.

pub mod color;
pub mod env;
pub mod ext;
pub mod geometry;
pub mod length;
pub mod link;
pub mod paint;
pub mod signal;
pub mod theme;

pub use color::Color;
pub use env::{Env, Key, KeyOrValue, Value, ValueType};
pub use ext::{ControllerHost, ExClick, LinkExt};
pub use geometry::{Point, RoundedRect, Size};
pub use length::Length;
pub use link::Link;
pub use paint::PaintOp;
pub use signal::{Action, Layout, LifeCycle};
