//! Colours as packed 32-bit RGBA values.

use vstd::prelude::*;

verus! {

/// A colour with eight bits per channel, packed as `0xRRGGBBAA`: red in the
/// most significant byte, alpha in the least significant one.
#[derive(Clone, Copy, PartialEq, Eq, Structural, Debug)]
pub struct Color {
    rgba: u32,
}

/// The packed value of four channels.
pub open spec fn pack(r: u8, g: u8, b: u8, a: u8) -> u32 {
    ((r as u32) << 24) | ((g as u32) << 16) | ((b as u32) << 8) | (a as u32)
}

/// Packing keeps every channel: each byte of the packed value is the channel
/// that was put there.
pub proof fn lemma_pack_channels(r: u8, g: u8, b: u8, a: u8)
    ensures
        (pack(r, g, b, a) >> 24) & 0xff == r,
        (pack(r, g, b, a) >> 16) & 0xff == g,
        (pack(r, g, b, a) >> 8) & 0xff == b,
        pack(r, g, b, a) & 0xff == a,
{
    assert((pack(r, g, b, a) >> 24) & 0xff == r) by (bit_vector);
    assert((pack(r, g, b, a) >> 16) & 0xff == g) by (bit_vector);
    assert((pack(r, g, b, a) >> 8) & 0xff == b) by (bit_vector);
    assert(pack(r, g, b, a) & 0xff == a) by (bit_vector);
}

impl Color {
    /// The packed `0xRRGGBBAA` value.
    pub closed spec fn rgba(self) -> u32 {
        self.rgba
    }

    /// The alpha channel: the least significant byte of the packed value.
    pub open spec fn alpha(self) -> u8 {
        (self.rgba() & 0xff) as u8
    }

    /// A colour paints something exactly when its alpha channel is not zero.
    pub open spec fn visible(self) -> bool {
        self.alpha() > 0
    }

    /// The colour with the given packed `0xRRGGBBAA` value.
    pub fn from_rgba32(rgba: u32) -> (color: Color)
        ensures
            color.rgba() == rgba,
    {
        Color { rgba }
    }

    /// The colour with the given channels.
    pub fn rgba8(r: u8, g: u8, b: u8, a: u8) -> (color: Color)
        ensures
            color.rgba() == pack(r, g, b, a),
            color.alpha() == a,
    {
        proof {
            lemma_pack_channels(r, g, b, a);
        }
        Color { rgba: ((r as u32) << 24) | ((g as u32) << 16) | ((b as u32) << 8) | (a as u32) }
    }

    /// The opaque colour with the given channels.
    pub fn rgb8(r: u8, g: u8, b: u8) -> (color: Color)
        ensures
            color.rgba() == pack(r, g, b, 0xff),
            color.alpha() == 0xff,
    {
        Color::rgba8(r, g, b, 0xff)
    }

    /// The packed `0xRRGGBBAA` value.
    pub fn as_rgba32(&self) -> (rgba: u32)
        ensures
            rgba == self.rgba(),
    {
        self.rgba
    }

    /// The alpha channel.
    pub fn get_alpha(&self) -> (a: u8)
        ensures
            a == self.alpha(),
    {
        let rgba: u32 = self.rgba;
        let low: u32 = rgba & 0xff;
        assert(low < 0x100) by (bit_vector)
            requires
                low == rgba & 0xff,
        ;
        low as u8
    }

    /// Whether drawing with this colour changes anything.
    pub fn is_visible(&self) -> (b: bool)
        ensures
            b == self.visible(),
            b == (self.alpha() > 0),
    {
        self.get_alpha() > 0
    }
}

} // verus!
