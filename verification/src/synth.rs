//! The fixed-point color synthesizer: one raw channel sample is cross-faded
//! between a waveform-modulated signal and a flat DC signal, with the shape
//! sample as the blend weight.
//!
//! The three right shifts (12, 4 and 8 bits) are calibration constants: they
//! keep every intermediate product inside 32 bits and land the blended sum
//! in [0, 255] without explicit saturation, which `lemma_channel_bounded`
//! proves.

use vstd::prelude::*;

use crate::FULL_SCALE;
use crate::wave::index_spec;
use vstd::arithmetic::div_mod::lemma_div_is_ordered;
use vstd::arithmetic::div_mod::lemma_div_pos_is_pos;
use vstd::arithmetic::div_mod::lemma_div_denominator;
use vstd::arithmetic::div_mod::lemma_div_multiples_vanish;
use vstd::arithmetic::div_mod::lemma_fundamental_div_mod;
use vstd::arithmetic::div_mod::lemma_mod_division_less_than_divisor;

verus! {

/// The waveform-modulated part of a channel: sample, waveform value and
/// shape sample multiplied, scaled down by 12 bits.
pub open spec fn sine_component(sample: int, wave: int, shape: int) -> int {
    (sample * wave * shape) / 4096
}

/// The flat part of a channel: sample times DC offset, scaled down by 4
/// bits.
pub open spec fn dc_component(sample: int, dc: int) -> int {
    (sample * dc) / 16
}

/// The blended 8-bit channel intensity: the two components summed, scaled
/// down by a further 8 bits.
pub open spec fn channel_spec(sample: int, wave: int, shape: int, dc: int) -> int {
    (sine_component(sample, wave, shape) + dc_component(sample, dc)) / 256
}

/// The complement of the shape sample: shape 0 gives a full-scale offset
/// (the flat DC path dominates), a full-scale shape gives offset 0 (the
/// waveform path dominates).
pub fn dc_offset(shape: u32) -> (dc: u32)
    requires
        shape <= FULL_SCALE,
    ensures
        dc == FULL_SCALE - shape,
{
    FULL_SCALE - shape
}

/// Coarse-quantizes the phase control to a tick offset between the
/// channels' waveform indices.
pub fn phase_delay(phase_sample: u32) -> (pd: u32)
    ensures
        pd == phase_sample as int / 8,
{
    proof {
        assert(phase_sample >> 3 == phase_sample / 8) by (bit_vector);
    }
    phase_sample >> 3
}

/// With the phase control at zero the quantized phase delay vanishes, and
/// red, green and blue all read the waveform entry at the raw time index.
pub proof fn lemma_zero_phase_aligns(time: int, pd: int)
    requires
        pd == 0,
    ensures
        index_spec(time, pd) == time % 256,
        index_spec(time, 2 * pd) == time % 256,
{
}

/// In-range samples always blend to an intensity that fits 8 bits: the
/// final reduction never truncates.
pub proof fn lemma_channel_bounded(s: int, w: int, sh: int, dc: int)
    requires
        0 <= s <= FULL_SCALE,
        0 <= w <= 255,
        0 <= sh <= FULL_SCALE,
        dc == FULL_SCALE - sh,
    ensures
        0 <= channel_spec(s, w, sh, dc) <= 255,
{
    let a = s * w * sh;
    let b = s * dc;
    assert(0 <= a) by (nonlinear_arith)
        requires
            0 <= s,
            0 <= w,
            0 <= sh,
            a == s * w * sh,
    ;
    assert(0 <= b) by (nonlinear_arith)
        requires
            0 <= s,
            0 <= dc,
            b == s * dc,
    ;
    assert(a + 256 * b <= 267911424) by (nonlinear_arith)
        requires
            0 <= s <= 1023,
            0 <= w <= 255,
            0 <= sh <= 1023,
            dc == 1023 - sh,
            a == s * w * sh,
            b == s * dc,
    ;
    // b / 16 is exactly (256 * b) / 4096, so both components can share the
    // 4096 denominator.
    lemma_div_multiples_vanish(b, 256);
    lemma_div_denominator(256 * b, 256, 16);
    assert(b / 16 == (256 * b) / 4096);
    // The floors of two shares never exceed the floor of their sum.
    lemma_fundamental_div_mod(a, 4096);
    lemma_fundamental_div_mod(256 * b, 4096);
    lemma_fundamental_div_mod(a + 256 * b, 4096);
    lemma_mod_division_less_than_divisor(a, 4096);
    lemma_mod_division_less_than_divisor(256 * b, 4096);
    lemma_mod_division_less_than_divisor(a + 256 * b, 4096);
    assert(a / 4096 + (256 * b) / 4096 <= (a + 256 * b) / 4096);
    lemma_div_is_ordered(a + 256 * b, 267911424, 4096);
    assert(267911424int / 4096 == 65408);
    lemma_div_pos_is_pos(a, 4096);
    lemma_div_pos_is_pos(b, 16);
    let blended = a / 4096 + b / 16;
    lemma_div_is_ordered(blended, 65408, 256);
    lemma_div_pos_is_pos(blended, 256);
    assert(65408int / 256 == 255);
}

/// Holding the waveform value, shape and DC offset fixed, the synthesized
/// intensity never decreases as the raw channel sample grows: the
/// fixed-point formula has no sign or overflow inversion.
pub proof fn lemma_channel_monotonic(s1: int, s2: int, w: int, sh: int, dc: int)
    requires
        0 <= s2 <= s1,
        0 <= w,
        0 <= sh,
        0 <= dc,
    ensures
        channel_spec(s2, w, sh, dc) <= channel_spec(s1, w, sh, dc),
{
    assert(s2 * w * sh <= s1 * w * sh) by (nonlinear_arith)
        requires
            0 <= s2 <= s1,
            0 <= w,
            0 <= sh,
    ;
    assert(s2 * dc <= s1 * dc) by (nonlinear_arith)
        requires
            0 <= s2 <= s1,
            0 <= dc,
    ;
    lemma_div_is_ordered(s2 * w * sh, s1 * w * sh, 4096);
    lemma_div_is_ordered(s2 * dc, s1 * dc, 16);
    lemma_div_is_ordered(
        sine_component(s2, w, sh) + dc_component(s2, dc),
        sine_component(s1, w, sh) + dc_component(s1, dc),
        256,
    );
}

/// One channel of one frame: blends the raw sample's waveform-modulated and
/// flat parts, exactly as `channel_spec` states, and reduces the result to
/// 8 bits — losslessly, since the blend is already in range.
pub fn channel_value(sample: u32, wave: u32, shape: u32, dc: u32) -> (v: u8)
    requires
        sample <= FULL_SCALE,
        wave <= 255,
        shape <= FULL_SCALE,
        dc == FULL_SCALE - shape,
    ensures
        v as int == channel_spec(sample as int, wave as int, shape as int, dc as int),
{
    proof {
        lemma_channel_bounded(sample as int, wave as int, shape as int, dc as int);
        assert(sample * wave <= 260865) by (nonlinear_arith)
            requires
                sample <= 1023,
                wave <= 255,
        ;
    }
    let sw: u32 = sample * wave;
    proof {
        assert(sw * shape <= 266864895) by (nonlinear_arith)
            requires
                sw <= 260865,
                shape <= 1023,
        ;
    }
    let sws: u32 = sw * shape;
    let sine_part: u32 = sws >> 12;
    proof {
        assert(sws >> 12 == sws / 4096) by (bit_vector);
        assert(sample * dc <= 1046529) by (nonlinear_arith)
            requires
                sample <= 1023,
                dc <= 1023,
        ;
    }
    let sd: u32 = sample * dc;
    let dc_part: u32 = sd >> 4;
    proof {
        assert(sd >> 4 == sd / 16) by (bit_vector);
        lemma_div_is_ordered(sws as int, 266864895, 4096);
        lemma_div_is_ordered(sd as int, 1046529, 16);
    }
    let blended: u32 = sine_part + dc_part;
    let out: u32 = blended >> 8;
    proof {
        assert(blended >> 8 == blended / 256) by (bit_vector);
    }
    out as u8
}

} // verus!
