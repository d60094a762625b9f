//! Colors as plain 8-bit triples, and the cyclic color wheel used by the
//! rainbow animation.

use vstd::prelude::*;

verus! {

/// One 24-bit color: an ordered triple of 8-bit channel intensities.
#[derive(Clone, Copy, Debug, PartialEq, Eq, Structural)]
pub struct Color {
    pub r: u8,
    pub g: u8,
    pub b: u8,
}

impl Color {
    /// The all-off color every history slot starts from.
    pub open spec fn black() -> Color {
        Color { r: 0, g: 0, b: 0 }
    }
}

/// The color wheel: positions 0 to 255 walk a red - green - blue - red cycle,
/// each third cross-fading two adjacent channels.
pub open spec fn wheel_spec(pos: int) -> Color {
    let w = 255 - pos;
    if w < 85 {
        Color { r: (255 - 3 * w) as u8, g: 0, b: (3 * w) as u8 }
    } else if w < 170 {
        Color { r: 0, g: (3 * (w - 85)) as u8, b: (255 - 3 * (w - 85)) as u8 }
    } else {
        Color { r: (3 * (w - 170)) as u8, g: (255 - 3 * (w - 170)) as u8, b: 0 }
    }
}

/// Maps a wheel position to its color; the colors are a transition
/// red - green - blue and back to red.
pub fn wheel(pos: u8) -> (c: Color)
    ensures
        c == wheel_spec(pos as int),
{
    let w: u8 = 255 - pos;
    if w < 85 {
        Color { r: 255 - 3 * w, g: 0, b: 3 * w }
    } else if w < 170 {
        let v: u8 = w - 85;
        Color { r: 0, g: 3 * v, b: 255 - 3 * v }
    } else {
        let v: u8 = w - 170;
        Color { r: 3 * v, g: 255 - 3 * v, b: 0 }
    }
}

/// Wheel position of LED `i` on a strip of `num_leds` during animation step
/// `j`: the strip is spread once around the wheel and rotated by `j`.
pub open spec fn rainbow_pos_spec(i: int, num_leds: int, j: int) -> int
    recommends
        1 <= num_leds,
{
    ((i * 256) / num_leds + j) % 256
}

/// One frame of the rainbow animation: every LED gets the wheel color for
/// its position, the whole pattern rotated by the step counter `j`.
pub fn rainbow_frame(num_leds: usize, j: u32) -> (frame: Vec<Color>)
    requires
        1 <= num_leds <= 256,
    ensures
        frame@.len() == num_leds,
        forall|i: int|
            0 <= i < num_leds ==> frame@[i] == wheel_spec(
                rainbow_pos_spec(i, num_leds as int, j as int),
            ),
{
    let mut frame: Vec<Color> = Vec::new();
    let mut i: usize = 0;
    while i < num_leds
        invariant
            i <= num_leds,
            1 <= num_leds <= 256,
            frame@.len() == i,
            forall|k: int|
                0 <= k < i ==> frame@[k] == wheel_spec(
                    rainbow_pos_spec(k, num_leds as int, j as int),
                ),
        decreases num_leds - i,
    {
        let base: u32 = (i as u32 * 256) / (num_leds as u32);
        let rotated: u32 = base.wrapping_add(j);
        proof {
            vstd::arithmetic::div_mod::lemma_mod_mod(base as int + j as int, 256, 0x100_0000);
            assert(256 * 0x100_0000 == 0x1_0000_0000);
            assert((rotated & 255) == rotated % 256) by (bit_vector);
        }
        let pos: u8 = (rotated & 255) as u8;
        frame.push(wheel(pos));
        i = i + 1;
    }
    frame
}

} // verus!
