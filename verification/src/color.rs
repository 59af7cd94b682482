//! Colour values as the palette engine stores them.
//!
//! The engine never does arithmetic on a colour: it keeps what a sampler drew,
//! hands it back unchanged, and prints its sRGB form as hex text. Okhsl
//! coordinates are therefore carried as the bit patterns of their IEEE-754
//! single-precision values, which makes every colour an exact, comparable
//! value.

use vstd::prelude::*;

verus! {

/// Bit pattern of the single-precision value 1.0, the upper bound of
/// saturation and lightness.
pub const UNIT_END: u32 = 0x3F80_0000;

/// Bit pattern of the single-precision value 360.0, the upper bound of hue.
pub const HUE_END: u32 = 0x43B4_0000;

/// A colour in Okhsl space: hue in degrees, saturation and lightness in the
/// unit interval, each as the bit pattern of a single-precision value.
#[derive(Clone, Copy, Debug, PartialEq, Eq, Structural)]
pub struct Okhsl {
    pub hue: u32,
    pub saturation: u32,
    pub lightness: u32,
}

/// A colour in sRGB with 8 bits per channel, the form in which it is shown
/// and exported.
#[derive(Clone, Copy, Debug, PartialEq, Eq, Structural)]
pub struct Srgb {
    pub red: u8,
    pub green: u8,
    pub blue: u8,
}

/// One colour as a sampler hands it over: the Okhsl coordinates it drew and
/// their sRGB rendering. The rendering is fixed here, once, so the hex text of
/// a stored colour never changes afterwards.
#[derive(Clone, Copy, Debug, PartialEq, Eq, Structural)]
pub struct Sample {
    pub okhsl: Okhsl,
    pub srgb: Srgb,
}

/// A half-open range `start <= x < end` of one channel, both bounds as bit
/// patterns of single-precision values.
#[derive(Clone, Copy, Debug, PartialEq, Eq, Structural)]
pub struct ChannelRange {
    pub start: u32,
    pub end: u32,
}

/// The ranges a sampler draws from.
#[derive(Clone, Copy, Debug, PartialEq, Eq, Structural)]
pub struct Constraints {
    pub hue: ChannelRange,
    pub saturation: ChannelRange,
    pub lightness: ChannelRange,
}

impl Constraints {
    /// The full range of every channel.
    pub open spec fn full() -> Constraints {
        Constraints {
            hue: ChannelRange { start: 0, end: HUE_END },
            saturation: ChannelRange { start: 0, end: UNIT_END },
            lightness: ChannelRange { start: 0, end: UNIT_END },
        }
    }

    /// Constraints that admit every hue in `[0, 360)` and every saturation and
    /// lightness in `[0, 1)`.
    pub fn new() -> (constraints: Self)
        ensures
            constraints == Constraints::full(),
    {
        Constraints {
            hue: ChannelRange { start: 0, end: HUE_END },
            saturation: ChannelRange { start: 0, end: UNIT_END },
            lightness: ChannelRange { start: 0, end: UNIT_END },
        }
    }
}

/// One palette entry: a colour and its lock.
#[derive(Clone, Copy, Debug, PartialEq, Eq, Structural)]
pub struct Color {
    pub okhsl: Okhsl,
    pub srgb: Srgb,
    /// A locked entry keeps its colour when the palette is regenerated.
    pub locked: bool,
}

/// The lower-case hexadecimal digit for `n`, where `0 <= n < 16`.
pub open spec fn hex_digit(n: int) -> char
    recommends
        0 <= n < 16,
{
    seq![
        '0', '1', '2', '3', '4', '5', '6', '7', '8', '9', 'a', 'b', 'c', 'd', 'e', 'f',
    ][n]
}

/// The two hexadecimal digits of one channel, high digit first.
pub open spec fn hex_pair(channel: u8) -> Seq<char> {
    seq![hex_digit(channel as int / 16), hex_digit(channel as int % 16)]
}

/// The hex text of a colour: `#` and then red, green and blue, two lower-case
/// digits each.
pub open spec fn hex_text(srgb: Srgb) -> Seq<char> {
    seq!['#'] + hex_pair(srgb.red) + hex_pair(srgb.green) + hex_pair(srgb.blue)
}

/// Formats an 8-bit sRGB colour with palette's `LowerHex` implementation for
/// `Rgb`, behind a leading `#`.
///
/// Trusted: when no width is asked for, that implementation writes each channel
/// with a width of twice the channel's size in bytes, padded with zeros, so an
/// 8-bit channel always gives exactly two digits.
#[verifier::external_body]
fn srgb_hex(srgb: Srgb) -> (text: String)
    ensures
        text@ == hex_text(srgb),
{
    format!("#{:x}", palette::Srgb::new(srgb.red, srgb.green, srgb.blue))
}

impl Color {
    /// The unlocked entry that holds `sample`.
    pub open spec fn unlocked(sample: Sample) -> Color {
        Color { okhsl: sample.okhsl, srgb: sample.srgb, locked: false }
    }

    /// This entry with its colour replaced by `sample` and its lock as it was.
    pub open spec fn recolored(self, sample: Sample) -> Color {
        Color { okhsl: sample.okhsl, srgb: sample.srgb, locked: self.locked }
    }

    /// This entry with its lock flipped and its colour as it was.
    pub open spec fn toggled(self) -> Color {
        Color { okhsl: self.okhsl, srgb: self.srgb, locked: !self.locked }
    }

    /// A new, unlocked entry for a freshly drawn colour.
    pub fn random_new(sample: Sample) -> (color: Self)
        ensures
            color == Color::unlocked(sample),
    {
        Color { okhsl: sample.okhsl, srgb: sample.srgb, locked: false }
    }

    /// Replaces the colour by a freshly drawn one. The lock is not touched.
    pub fn regen(&mut self, sample: Sample)
        ensures
            *final(self) == old(self).recolored(sample),
    {
        self.okhsl = sample.okhsl;
        self.srgb = sample.srgb;
    }

    /// The colour as `#rrggbb`.
    pub fn hex_string(&self) -> (text: String)
        ensures
            text@ == hex_text(self.srgb),
    {
        srgb_hex(self.srgb)
    }
}

} // verus!
