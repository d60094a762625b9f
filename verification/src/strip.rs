//! Uniform brightness attenuation of a whole frame before transmission.
//!
//! Transmission itself — turning each 24-bit color into the strip's timed
//! electrical waveform — is the surrounding program's job; the core only
//! prepares the ordered, attenuated sequence of colors.

use vstd::prelude::*;

use crate::color::Color;

verus! {

/// One channel attenuated: `c * (scale + 1) / 256`, so scale 255 keeps the
/// channel as it is and scale 0 leaves at most the top bit's worth.
pub open spec fn scale_channel(c: u8, scale: u8) -> u8 {
    ((c * (scale + 1)) / 256) as u8
}

/// A color with every channel attenuated by the same factor.
pub open spec fn scale_color(c: Color, scale: u8) -> Color {
    Color {
        r: scale_channel(c.r, scale),
        g: scale_channel(c.g, scale),
        b: scale_channel(c.b, scale),
    }
}

/// Relies on smart_leds::brightness: each channel of each color comes back
/// as `channel * (scale + 1) / 256`, length and order kept.
#[verifier::external_body]
fn brightness_scale(colors: &Vec<Color>, scale: u8) -> (scaled: Vec<Color>)
    ensures
        scaled@.len() == colors@.len(),
        forall|i: int| 0 <= i < colors@.len() ==> scaled@[i] == scale_color(colors@[i], scale),
{
    let rgb = colors.iter().map(|c| smart_leds::RGB8 { r: c.r, g: c.g, b: c.b });
    smart_leds::brightness(rgb, scale).map(|c| Color { r: c.r, g: c.g, b: c.b }).collect()
}

/// The frame as it goes to the strip: every channel of every color
/// attenuated by the same 8-bit factor, order and length untouched.
pub fn scaled_frame(colors: &Vec<Color>, scale: u8) -> (scaled: Vec<Color>)
    ensures
        scaled@.len() == colors@.len(),
        forall|i: int| 0 <= i < colors@.len() ==> scaled@[i] == scale_color(colors@[i], scale),
{
    brightness_scale(colors, scale)
}

} // verus!
