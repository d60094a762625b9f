//! Verified core of a potentiometer-driven LED color organ.
//!
//! Six analog samples (three color levels, speed, shape, phase) are turned
//! into a per-frame color by a fixed-point waveform synthesizer; a scrolling
//! history buffer spreads successive colors across the strip as a moving
//! trail; a frame scheduler derives the inter-frame delay and advances a
//! wrapping time counter.  Reading the analog channels and pushing bytes to
//! the physical strip are left to the surrounding program; everything here
//! works on plain integer samples and colors.

use vstd::prelude::*;

pub mod color;
pub mod history;
pub mod sched;
pub mod strip;
pub mod synth;
pub mod wave;

verus! {

/// Largest sample the analog converter can produce (10-bit conversion).
pub const FULL_SCALE: u32 = 1023;

} // verus!

