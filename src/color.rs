use vstd::prelude::*;
use embedded_graphics::pixelcolor::{Rgb565, Rgb888};

verus! {

/// The native pixel value of an (r, g, b) triple: the top 5 bits of red, the
/// top 6 bits of green and the top 5 bits of blue, red in the high bits.
pub open spec fn pack565(r: u8, g: u8, b: u8) -> u16 {
    ((r as int / 8) * 2048 + (g as int / 4) * 32 + b as int / 8) as u16
}

/// The red channel (5 bits) of a native pixel value.
pub open spec fn red_of(raw: u16) -> u8 {
    (raw as int / 2048) as u8
}

/// The green channel (6 bits) of a native pixel value.
pub open spec fn green_of(raw: u16) -> u8 {
    ((raw as int / 32) % 64) as u8
}

/// The blue channel (5 bits) of a native pixel value.
pub open spec fn blue_of(raw: u16) -> u8 {
    (raw as int % 32) as u8
}

#[verifier::external_type_specification]
#[verifier::external_body]
pub struct ExRgb888(Rgb888);

#[verifier::external_type_specification]
#[verifier::external_body]
pub struct ExRgb565(Rgb565);

/// The (red, green, blue) channels that an embedded-graphics 8-8-8 pixel holds.
pub uninterp spec fn rgb888_channels(p: Rgb888) -> (u8, u8, u8);

/// The (red, green, blue) channels that an embedded-graphics 5-6-5 pixel holds.
pub uninterp spec fn rgb565_channels(p: Rgb565) -> (u8, u8, u8);

/// Relies on embedded-graphics' `Rgb888::new`, which stores each 8-bit
/// channel as given and never fails.
#[verifier::external_body]
fn rgb888(r: u8, g: u8, b: u8) -> (p: Rgb888)
    ensures
        rgb888_channels(p) == (r, g, b),
{
    Rgb888::new(r, g, b)
}

/// Relies on embedded-graphics' `Rgb565::new`, which masks each channel to
/// the width of its field (5, 6 and 5 bits) and never fails.
#[verifier::external_body]
fn rgb565(r: u8, g: u8, b: u8) -> (p: Rgb565)
    ensures
        rgb565_channels(p) == (r % 32, g % 64, b % 32),
{
    Rgb565::new(r, g, b)
}

/// A color with the layout of the native pixel type at 16-bit depth.
#[derive(Copy, Clone)]
pub struct Color {
    raw: u16,
}

impl View for Color {
    type V = u16;

    /// The native pixel value.
    closed spec fn view(&self) -> u16 {
        self.raw
    }
}

impl Color {
    /// Creates a `Color` from red, green, and blue values.
    pub fn from_rgb(rgb: (u8, u8, u8)) -> (c: Self)
        ensures
            c@ == pack565(rgb.0, rgb.1, rgb.2),
    {
        let (r, g, b) = rgb;
        let raw: u16 = (r / 8) as u16 * 2048 + (g / 4) as u16 * 32 + (b / 8) as u16;
        Color { raw }
    }

    /// Creates a `Color` from a native pixel value.
    pub fn from_raw(raw: u16) -> (c: Self)
        ensures
            c@ == raw,
    {
        Color { raw }
    }

    /// The native pixel value.
    pub fn raw(&self) -> (r: u16)
        ensures
            r == self@,
    {
        self.raw
    }

    /// Returns the value of the red channel.
    pub fn r(&self) -> (r: u8)
        ensures
            r == red_of(self@),
    {
        (self.raw / 2048) as u8
    }

    /// Returns the value of the green channel.
    pub fn g(&self) -> (g: u8)
        ensures
            g == green_of(self@),
    {
        (self.raw / 32 % 64) as u8
    }

    /// Returns the value of the blue channel.
    pub fn b(&self) -> (b: u8)
        ensures
            b == blue_of(self@),
    {
        (self.raw % 32) as u8
    }
}

impl Color {
    /// The color as an 8-bit-per-channel pixel of embedded-graphics. Each
    /// channel is handed over as stored, without scaling to 8 bits.
    pub fn to_rgb888(&self) -> (p: Rgb888)
        ensures
            rgb888_channels(p) == (red_of(self@), green_of(self@), blue_of(self@)),
    {
        rgb888(self.r(), self.g(), self.b())
    }

    /// The color as a 5-6-5 pixel of embedded-graphics.
    pub fn to_rgb565(&self) -> (p: Rgb565)
        ensures
            rgb565_channels(p) == (red_of(self@), green_of(self@), blue_of(self@)),
    {
        rgb565(self.r(), self.g(), self.b())
    }
}

impl Default for Color {
    fn default() -> (c: Self)
        ensures
            c@ == 0,
    {
        Color { raw: 0 }
    }
}

impl From<Color> for u16 {
    fn from(color: Color) -> Self {
        color.raw
    }
}

impl vstd::std_specs::convert::FromSpecImpl<Color> for u16 {
    open spec fn obeys_from_spec() -> bool {
        true
    }

    open spec fn from_spec(v: Color) -> Self {
        v@
    }
}

/// Each channel read back from a color made of (r, g, b) is the channel
/// truncated to the depth of its field: r / 8, g / 4 and b / 8.
pub proof fn lemma_channels_quantized(r: u8, g: u8, b: u8)
    ensures
        red_of(pack565(r, g, b)) == r / 8,
        green_of(pack565(r, g, b)) == g / 4,
        blue_of(pack565(r, g, b)) == b / 8,
{
    let (rq, gq, bq) = (r as int / 8, g as int / 4, b as int / 8);
    assert(0 <= rq < 32 && 0 <= gq < 64 && 0 <= bq < 32);
    assert(0 <= gq * 32 + bq < 2048) by (nonlinear_arith)
        requires 0 <= gq < 64, 0 <= bq < 32;
    assert(0 <= rq * 2048 + gq * 32 + bq < 65536) by (nonlinear_arith)
        requires 0 <= rq < 32, 0 <= gq * 32 + bq < 2048;
    let raw = rq * 2048 + gq * 32 + bq;
    assert(raw / 2048 == rq) by (nonlinear_arith)
        requires raw == rq * 2048 + (gq * 32 + bq), 0 <= gq * 32 + bq < 2048;
    assert(raw / 32 == rq * 64 + gq) by (nonlinear_arith)
        requires raw == (rq * 64 + gq) * 32 + bq, 0 <= bq < 32;
    assert((rq * 64 + gq) % 64 == gq) by (nonlinear_arith)
        requires 0 <= gq < 64, 0 <= rq;
    assert(raw % 32 == bq) by (nonlinear_arith)
        requires raw == (rq * 64 + gq) * 32 + bq, 0 <= bq < 32, 0 <= rq, 0 <= gq;
}

} // verus!
