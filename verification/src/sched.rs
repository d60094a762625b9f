//! The frame scheduler: one state object that, once per tick, synthesizes
//! the next color from the six analog samples, scrolls it into the history
//! buffer, derives the inter-frame delay from the speed sample and advances
//! the wrapping time counter by that many milliseconds.

use vstd::prelude::*;

use crate::FULL_SCALE;
use crate::color::Color;
use crate::history::HistoryBuffer;
use crate::synth::channel_spec;
use crate::synth::channel_value;
use crate::synth::dc_offset;
use crate::synth::lemma_channel_bounded;
use crate::synth::phase_delay;
use crate::wave::WaveTable;
use crate::wave::index_spec;
use crate::wave::wave_table_spec;

verus! {

/// Speed samples at or below this offset give the shortest (zero) delay.
pub const SPEED_OFFSET: u32 = 420;

/// Milliseconds of delay per speed-sample step above the offset.
pub const SPEED_SCALE: u32 = 10;

/// Longest inter-frame delay, in milliseconds.
pub const MAX_DELAY_MS: u32 = 1000;

/// Inter-frame delay in milliseconds derived from the raw speed sample:
/// `(speed - SPEED_OFFSET) * SPEED_SCALE`, saturating at zero below the
/// offset and clamped to `MAX_DELAY_MS` above it.
pub open spec fn delay_spec(speed: int) -> int {
    if speed <= SPEED_OFFSET {
        0
    } else if (speed - SPEED_OFFSET) * SPEED_SCALE >= MAX_DELAY_MS {
        MAX_DELAY_MS as int
    } else {
        (speed - SPEED_OFFSET) * SPEED_SCALE
    }
}

/// Derives the milliseconds to wait between frames from the speed sample.
/// Speed samples below the offset clamp to zero rather than underflowing.
pub fn delay_from_speed(speed: u32) -> (delay_ms: u32)
    requires
        speed <= FULL_SCALE,
    ensures
        delay_ms == delay_spec(speed as int),
        speed <= SPEED_OFFSET ==> delay_ms == 0,
        delay_ms <= MAX_DELAY_MS,
{
    let base: u32 = if speed > SPEED_OFFSET {
        speed - SPEED_OFFSET
    } else {
        0
    };
    let scaled: u32 = base * SPEED_SCALE;
    if scaled > MAX_DELAY_MS {
        MAX_DELAY_MS
    } else {
        scaled
    }
}

/// Advances the time counter by one for each elapsed millisecond.  The
/// counter wraps silently; a wrap is a normal event, not an error.
pub fn advance_time(time: u32, elapsed_ms: u32) -> (t: u32)
    ensures
        t as int == (time as int + elapsed_ms as int) % 0x1_0000_0000,
{
    time.wrapping_add(elapsed_ms)
}

/// One fresh conversion of each of the six analog channels, taken at the
/// start of a tick.
#[derive(Clone, Copy, Debug, PartialEq, Eq, Structural)]
pub struct Samples {
    pub red: u32,
    pub green: u32,
    pub blue: u32,
    pub speed: u32,
    pub shape: u32,
    pub phase: u32,
}

impl Samples {
    /// Every channel within what the converter can produce.
    pub open spec fn in_range(&self) -> bool {
        &&& self.red <= FULL_SCALE
        &&& self.green <= FULL_SCALE
        &&& self.blue <= FULL_SCALE
        &&& self.speed <= FULL_SCALE
        &&& self.shape <= FULL_SCALE
        &&& self.phase <= FULL_SCALE
    }
}

/// The color a tick synthesizes: each channel blends its own raw sample
/// with the waveform entry at its own phase-shifted time index, under the
/// shared shape sample and DC offset.  Red reads the table at the raw time,
/// green one phase delay later, blue two.
pub open spec fn frame_color_spec(table: Seq<u8>, time: int, s: Samples) -> Color {
    let pd = s.phase as int / 8;
    let dc = FULL_SCALE - s.shape;
    Color {
        r: channel_spec(s.red as int, table[index_spec(time, 0)] as int, s.shape as int, dc) as u8,
        g: channel_spec(s.green as int, table[index_spec(time, pd)] as int, s.shape as int, dc) as u8,
        b: channel_spec(
            s.blue as int,
            table[index_spec(time, 2 * pd)] as int,
            s.shape as int,
            dc,
        ) as u8,
    }
}

/// The whole animation state: the immutable waveform table, the per-LED
/// color trail, and the wrapping time counter.
pub struct ColorOrgan {
    table: WaveTable,
    history: HistoryBuffer,
    time: u32,
}

impl ColorOrgan {
    /// The table always keeps its full period of entries.
    pub closed spec fn wf(&self) -> bool {
        self.table.wf()
    }

    /// The waveform table's contents.
    pub closed spec fn table_view(&self) -> Seq<u8> {
        self.table@
    }

    /// The trail of synthesized colors, most recent first.
    pub closed spec fn frame_view(&self) -> Seq<Color> {
        self.history@
    }

    /// The current value of the wrapping time counter.
    pub closed spec fn time_spec(&self) -> u32 {
        self.time
    }

    /// One-time setup: the waveform table built, every LED off, the time
    /// counter at zero.
    pub fn new(num_leds: usize) -> (organ: ColorOrgan)
        ensures
            organ.wf(),
            organ.table_view() == wave_table_spec(),
            organ.frame_view().len() == num_leds,
            forall|i: int| 0 <= i < num_leds ==> organ.frame_view()[i] == Color::black(),
            organ.time_spec() == 0,
    {
        ColorOrgan { table: WaveTable::new(), history: HistoryBuffer::new(num_leds), time: 0 }
    }

    /// One steady-loop iteration: synthesizes the frame color from the six
    /// samples at the current time, scrolls it into the history buffer,
    /// and advances the time counter by the derived delay.  Returns the
    /// milliseconds the caller should wait before the next tick.
    pub fn tick(&mut self, s: Samples) -> (delay_ms: u32)
        requires
            old(self).wf(),
            s.in_range(),
        ensures
            final(self).wf(),
            final(self).table_view() == old(self).table_view(),
            delay_ms == delay_spec(s.speed as int),
            final(self).time_spec() as int == (old(self).time_spec() as int + delay_ms as int)
                % 0x1_0000_0000,
            final(self).frame_view().len() == old(self).frame_view().len(),
            old(self).frame_view().len() > 0 ==> final(self).frame_view()[0] == frame_color_spec(
                old(self).table_view(),
                old(self).time_spec() as int,
                s,
            ),
            forall|i: int|
                1 <= i < old(self).frame_view().len() ==> final(self).frame_view()[i] == old(
                    self,
                ).frame_view()[i - 1],
    {
        let pd: u32 = phase_delay(s.phase);
        let wave_r: u8 = self.table.lookup(self.time);
        let wave_g: u8 = self.table.lookup_shifted(self.time, pd);
        let wave_b: u8 = self.table.lookup_shifted(self.time, 2 * pd);
        let dc: u32 = dc_offset(s.shape);
        let red: u8 = channel_value(s.red, wave_r as u32, s.shape, dc);
        let green: u8 = channel_value(s.green, wave_g as u32, s.shape, dc);
        let blue: u8 = channel_value(s.blue, wave_b as u32, s.shape, dc);
        proof {
            lemma_channel_bounded(
                s.red as int,
                wave_r as int,
                s.shape as int,
                FULL_SCALE - s.shape as int,
            );
            lemma_channel_bounded(
                s.green as int,
                wave_g as int,
                s.shape as int,
                FULL_SCALE - s.shape as int,
            );
            lemma_channel_bounded(
                s.blue as int,
                wave_b as int,
                s.shape as int,
                FULL_SCALE - s.shape as int,
            );
        }
        self.history.push_front(Color { r: red, g: green, b: blue });
        let delay_ms: u32 = delay_from_speed(s.speed);
        self.time = advance_time(self.time, delay_ms);
        delay_ms
    }

    /// Read-only access to the trail, head first, for transmission.
    pub fn frame(&self) -> (v: &Vec<Color>)
        ensures
            v@ == self.frame_view(),
    {
        self.history.colors()
    }

    /// The current time counter.
    pub fn time(&self) -> (t: u32)
        ensures
            t == self.time_spec(),
    {
        self.time
    }
}

} // verus!
