//! The colours that the theme provides for links.

use crate::color::Color;
use crate::env::{Env, Key};
use vstd::prelude::*;

verus! {

/// The name of the colour behind a link that the pointer is over.
pub const LINK_HOT_COLOR: &'static str = "app.link-hot-color";

/// The name of the colour behind a link that the pointer is not over.
pub const LINK_COLD_COLOR: &'static str = "app.link-cold-color";

/// The key of the colour behind a link that the pointer is over.
pub fn link_hot_color() -> (key: Key)
    ensures
        key@ == LINK_HOT_COLOR@,
{
    Key::new(LINK_HOT_COLOR)
}

/// The key of the colour behind a link that the pointer is not over.
pub fn link_cold_color() -> (key: Key)
    ensures
        key@ == LINK_COLD_COLOR@,
{
    Key::new(LINK_COLD_COLOR)
}

/// The name of the background colour for a hover state.
pub open spec fn background_name(hot: bool) -> Seq<char> {
    if hot {
        LINK_HOT_COLOR@
    } else {
        LINK_COLD_COLOR@
    }
}

/// The background colour that `env` gives a link in a hover state: the hot
/// colour while the pointer is over the link, the cold colour otherwise.
pub open spec fn background(hot: bool, env: &Env) -> Color
    recommends
        env.defines::<Color>(background_name(hot)),
{
    env.value_of::<Color>(background_name(hot))
}

/// The key of the background colour for a hover state.
pub fn link_background_key(hot: bool) -> (key: Key)
    ensures
        key@ == background_name(hot),
{
    if hot {
        link_hot_color()
    } else {
        link_cold_color()
    }
}

/// The background colour that `env` gives a link in a hover state.
pub fn link_background(hot: bool, env: &Env) -> (color: Color)
    requires
        env.defines::<Color>(background_name(hot)),
    ensures
        color == background(hot, env),
        hot ==> color == env.value_of::<Color>(LINK_HOT_COLOR@),
        !hot ==> color == env.value_of::<Color>(LINK_COLD_COLOR@),
{
    let key = link_background_key(hot);
    env.get::<Color>(&key)
}

} // verus!
