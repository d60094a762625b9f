//! The precomputed brightness-waveform table: one full period of a smooth
//! bipolar wave remapped to [0, 255] with a midpoint of 128.

use vstd::prelude::*;

verus! {

/// Number of entries in the waveform table: one full period.
pub const TABLE_LEN: usize = 256;

/// The table's contents: one period of the brightness wave, sampled at 256
/// points, values in [0, 255], starting at the 128 midpoint.
pub open spec fn wave_table_spec() -> Seq<u8> {
    seq![
        128, 131, 134, 137, 140, 143, 146, 149, 152, 155, 158, 162, 165, 167, 170, 173,
        176, 179, 182, 185, 188, 190, 193, 196, 198, 201, 203, 206, 208, 211, 213, 215,
        218, 220, 222, 224, 226, 228, 230, 232, 234, 235, 237, 238, 240, 241, 243, 244,
        245, 246, 248, 249, 250, 250, 251, 252, 253, 253, 254, 254, 254, 255, 255, 255,
        255, 255, 255, 255, 254, 254, 254, 253, 253, 252, 251, 250, 250, 249, 248, 246,
        245, 244, 243, 241, 240, 238, 237, 235, 234, 232, 230, 228, 226, 224, 222, 220,
        218, 215, 213, 211, 208, 206, 203, 201, 198, 196, 193, 190, 188, 185, 182, 179,
        176, 173, 170, 167, 165, 162, 158, 155, 152, 149, 146, 143, 140, 137, 134, 131,
        128, 124, 121, 118, 115, 112, 109, 106, 103, 100, 97, 93, 90, 88, 85, 82,
        79, 76, 73, 70, 67, 65, 62, 59, 57, 54, 52, 49, 47, 44, 42, 40,
        37, 35, 33, 31, 29, 27, 25, 23, 21, 20, 18, 17, 15, 14, 12, 11,
        10, 9, 7, 6, 5, 5, 4, 3, 2, 2, 1, 1, 1, 0, 0, 0,
        0, 0, 0, 0, 1, 1, 1, 2, 2, 3, 4, 5, 5, 6, 7, 9,
        10, 11, 12, 14, 15, 17, 18, 20, 21, 23, 25, 27, 29, 31, 33, 35,
        37, 40, 42, 44, 47, 49, 52, 54, 57, 59, 62, 65, 67, 70, 73, 76,
        79, 82, 85, 88, 90, 93, 97, 100, 103, 106, 109, 112, 115, 118, 121, 124,
    ]
}

/// Index into the waveform table that a (possibly wrapped) time counter
/// `time` reaches after a phase offset of `offset` ticks.
pub open spec fn index_spec(time: int, offset: int) -> int {
    (time + offset) % 256
}

/// Reduces a time counter to a table index.  Truncating to the table's
/// bit-width is exactly reduction modulo the table length.
pub fn wave_index(time: u32) -> (i: u8)
    ensures
        i as int == time as int % 256,
{
    proof {
        assert((time as u8) as int == time as int % 256) by (bit_vector);
    }
    time as u8
}

/// The waveform table, constructed once at startup and never mutated.
pub struct WaveTable {
    entries: Vec<u8>,
}

impl View for WaveTable {
    type V = Seq<u8>;

    closed spec fn view(&self) -> Seq<u8> {
        self.entries@
    }
}

impl WaveTable {
    /// The table holds exactly one entry per representable index.
    pub open spec fn wf(&self) -> bool {
        self@.len() == TABLE_LEN
    }

    /// Builds the one period of the brightness wave.
    pub fn new() -> (t: WaveTable)
        ensures
            t@ == wave_table_spec(),
            t.wf(),
    {
        let entries: Vec<u8> = vec![
            128, 131, 134, 137, 140, 143, 146, 149, 152, 155, 158, 162, 165, 167, 170, 173,
            176, 179, 182, 185, 188, 190, 193, 196, 198, 201, 203, 206, 208, 211, 213, 215,
            218, 220, 222, 224, 226, 228, 230, 232, 234, 235, 237, 238, 240, 241, 243, 244,
            245, 246, 248, 249, 250, 250, 251, 252, 253, 253, 254, 254, 254, 255, 255, 255,
            255, 255, 255, 255, 254, 254, 254, 253, 253, 252, 251, 250, 250, 249, 248, 246,
            245, 244, 243, 241, 240, 238, 237, 235, 234, 232, 230, 228, 226, 224, 222, 220,
            218, 215, 213, 211, 208, 206, 203, 201, 198, 196, 193, 190, 188, 185, 182, 179,
            176, 173, 170, 167, 165, 162, 158, 155, 152, 149, 146, 143, 140, 137, 134, 131,
            128, 124, 121, 118, 115, 112, 109, 106, 103, 100, 97, 93, 90, 88, 85, 82,
            79, 76, 73, 70, 67, 65, 62, 59, 57, 54, 52, 49, 47, 44, 42, 40,
            37, 35, 33, 31, 29, 27, 25, 23, 21, 20, 18, 17, 15, 14, 12, 11,
            10, 9, 7, 6, 5, 5, 4, 3, 2, 2, 1, 1, 1, 0, 0, 0,
            0, 0, 0, 0, 1, 1, 1, 2, 2, 3, 4, 5, 5, 6, 7, 9,
            10, 11, 12, 14, 15, 17, 18, 20, 21, 23, 25, 27, 29, 31, 33, 35,
            37, 40, 42, 44, 47, 49, 52, 54, 57, 59, 62, 65, 67, 70, 73, 76,
            79, 82, 85, 88, 90, 93, 97, 100, 103, 106, 109, 112, 115, 118, 121, 124,
        ];
        proof {
            assert(entries@ =~= wave_table_spec());
        }
        WaveTable { entries }
    }

    /// The waveform value at a raw time counter, which is reduced modulo the
    /// table length before indexing.
    pub fn lookup(&self, time: u32) -> (v: u8)
        requires
            self.wf(),
        ensures
            v == self@[time as int % 256],
    {
        let i: u8 = wave_index(time);
        self.entries[i as usize]
    }

    /// The waveform value a phase-shifted channel reads: the time counter
    /// advanced by `offset` ticks, wrapped, then reduced to a table index.
    pub fn lookup_shifted(&self, time: u32, offset: u32) -> (v: u8)
        requires
            self.wf(),
        ensures
            v == self@[index_spec(time as int, offset as int)],
    {
        let t: u32 = time.wrapping_add(offset);
        proof {
            vstd::arithmetic::div_mod::lemma_mod_mod(time as int + offset as int, 256, 0x100_0000);
            assert(256 * 0x100_0000 == 0x1_0000_0000);
        }
        self.lookup(t)
    }
}

} // verus!
