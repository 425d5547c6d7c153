//! What a frame asks the renderer to draw.

use vstd::prelude::*;
use crate::geometry::Rect;

verus! {

/// The bit pattern of the single-precision number 0.0.
pub const CHANNEL_ZERO: u32 = 0x0000_0000;

/// The bit pattern of the single-precision number nearest to 0.4.
pub const CHANNEL_FOUR_TENTHS: u32 = 0x3ECC_CCCD;

/// The bit pattern of the single-precision number 0.5.
pub const CHANNEL_HALF: u32 = 0x3F00_0000;

/// The bit pattern of the single-precision number nearest to 0.8.
pub const CHANNEL_EIGHT_TENTHS: u32 = 0x3F4C_CCCD;

/// The bit pattern of the single-precision number 1.0.
pub const CHANNEL_ONE: u32 = 0x3F80_0000;

/// A colour of four channels: red, green, blue and opacity.
///
/// Each channel is a single-precision number, held here as its IEEE 754 bit
/// pattern (what `f32::to_bits` gives and `f32::from_bits` takes). Any number
/// is a valid channel: keeping it in a range the display can show is left to
/// the renderer.
#[derive(Clone, Copy, Debug, PartialEq, Eq, Structural)]
pub struct Color {
    pub red: u32,
    pub green: u32,
    pub blue: u32,
    pub alpha: u32,
}

impl Color {
    /// The colour with the given channels, each as a bit pattern.
    pub fn from_bits(red: u32, green: u32, blue: u32, alpha: u32) -> (color: Color)
        ensures
            color == (Color { red, green, blue, alpha }),
    {
        Color { red, green, blue, alpha }
    }

    /// The colour whose red, green and blue channels all hold `level`.
    pub open spec fn spec_gray(level: u32, alpha: u32) -> Color {
        Color { red: level, green: level, blue: level, alpha }
    }

    /// The colour whose red, green and blue channels all hold `level`.
    #[verifier::when_used_as_spec(spec_gray)]
    pub fn gray(level: u32, alpha: u32) -> (color: Color)
        ensures
            color == Color::spec_gray(level, alpha),
    {
        Color { red: level, green: level, blue: level, alpha }
    }

    pub open spec fn spec_transparent() -> Color {
        Color::spec_gray(CHANNEL_ZERO, CHANNEL_ZERO)
    }

    /// Nothing visible: every channel 0.0.
    #[verifier::when_used_as_spec(spec_transparent)]
    pub fn transparent() -> (color: Color)
        ensures
            color == Color::spec_transparent(),
    {
        Color::gray(CHANNEL_ZERO, CHANNEL_ZERO)
    }

    pub open spec fn spec_white() -> Color {
        Color::spec_gray(CHANNEL_ONE, CHANNEL_ONE)
    }

    /// Opaque white: every channel 1.0.
    #[verifier::when_used_as_spec(spec_white)]
    pub fn white() -> (color: Color)
        ensures
            color == Color::spec_white(),
    {
        Color::gray(CHANNEL_ONE, CHANNEL_ONE)
    }

    pub open spec fn spec_light_gray() -> Color {
        Color::spec_gray(CHANNEL_EIGHT_TENTHS, CHANNEL_ONE)
    }

    /// Opaque light gray: 0.8 in red, green and blue.
    #[verifier::when_used_as_spec(spec_light_gray)]
    pub fn light_gray() -> (color: Color)
        ensures
            color == Color::spec_light_gray(),
    {
        Color::gray(CHANNEL_EIGHT_TENTHS, CHANNEL_ONE)
    }

    pub open spec fn spec_mid_gray() -> Color {
        Color::spec_gray(CHANNEL_HALF, CHANNEL_ONE)
    }

    /// Opaque mid gray: 0.5 in red, green and blue.
    #[verifier::when_used_as_spec(spec_mid_gray)]
    pub fn mid_gray() -> (color: Color)
        ensures
            color == Color::spec_mid_gray(),
    {
        Color::gray(CHANNEL_HALF, CHANNEL_ONE)
    }

    pub open spec fn spec_muted_gray() -> Color {
        Color::spec_gray(CHANNEL_FOUR_TENTHS, CHANNEL_FOUR_TENTHS)
    }

    /// Muted, translucent gray: 0.4 in every channel.
    #[verifier::when_used_as_spec(spec_muted_gray)]
    pub fn muted_gray() -> (color: Color)
        ensures
            color == Color::spec_muted_gray(),
    {
        Color::gray(CHANNEL_FOUR_TENTHS, CHANNEL_FOUR_TENTHS)
    }
}

/// One thing to draw.
#[derive(Clone, Copy, Debug, PartialEq, Eq, Structural)]
pub enum DrawItem {
    /// A rectangle filled with one colour.
    Rect(Rect, Color),
}

} // verus!
