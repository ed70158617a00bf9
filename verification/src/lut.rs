//! The waveform lookup table that governs how the panel refreshes.
//!
//! A table is 70 bytes in the controller's own format. The first 35 bytes are
//! five waveform groups of seven bytes, one byte per phase; a byte packs the
//! level of the four sub-phases A, B, C and D, two bits each, A in the two most
//! significant bits. The last 35 bytes are seven timing rows of five bytes: the
//! durations of A, B, C and D, then the repeat count.

use vstd::prelude::*;

verus! {

/// Length of a lookup table in bytes.
pub const LUT_LEN: usize = 70;

/// Number of waveform groups: black, white, an unused one, accent and VCOM.
pub const WAVEFORM_GROUPS: usize = 5;

/// Phases, and so bytes, in one waveform group.
pub const PHASES: usize = 7;

/// Sub-phases packed in one waveform byte.
pub const SUB_PHASES: usize = 4;

/// Offset of the first timing row.
pub const TIMING_OFFSET: usize = 35;

/// Number of timing rows.
pub const TIMING_ROWS: usize = 7;

/// Bytes in one timing row.
pub const TIMING_ROW_LEN: usize = 5;

/// Lookup table tuned for a fast refresh of a yellow panel.
pub const LUT_FAST_YELLOW: [u8; 70] = [
    0b11111010, 0b10010100, 0b10001100, 0b11000000, 0b11010000, 0b00000000, 0b00000000,
    0b11111010, 0b10010100, 0b00101100, 0b10000000, 0b11100000, 0b00000000, 0b00000000,
    0b11111010, 0b00000000, 0b00000000, 0b00000000, 0b00000000, 0b00000000, 0b00000000,
    0b11111010, 0b10010100, 0b11111000, 0b10000000, 0b01010000, 0b00000000, 0b11001100,
    0b10111111, 0b01011000, 0b11111100, 0b10000000, 0b11010000, 0b00000000, 0b00010001,
    0, 0, 64, 16, 1,
    8, 16, 4, 4, 2,
    8, 8, 3, 8, 2,
    8, 4, 0, 0, 2,
    16, 8, 8, 0, 4,
    0, 0, 0, 0, 0,
    0, 0, 0, 0, 0,
];

/// The waveform groups, in table order.
#[derive(Clone, Copy, PartialEq, Eq, Structural, Debug)]
pub enum WaveformGroup {
    Black,
    White,
    Unused,
    Accent,
    Vcom,
}

impl WaveformGroup {
    /// Position of the group in the table.
    pub open spec fn spec_index(self) -> int {
        match self {
            WaveformGroup::Black => 0,
            WaveformGroup::White => 1,
            WaveformGroup::Unused => 2,
            WaveformGroup::Accent => 3,
            WaveformGroup::Vcom => 4,
        }
    }

    /// Position of the group in the table.
    pub fn index(self) -> (i: usize)
        ensures
            i as int == self.spec_index(),
            i < WAVEFORM_GROUPS,
    {
        match self {
            WaveformGroup::Black => 0,
            WaveformGroup::White => 1,
            WaveformGroup::Unused => 2,
            WaveformGroup::Accent => 3,
            WaveformGroup::Vcom => 4,
        }
    }
}

/// One timing row: how long each sub-phase lasts and how often the phase repeats.
#[derive(Clone, Copy, PartialEq, Eq, Structural, Debug)]
pub struct TimingRow {
    pub a: u8,
    pub b: u8,
    pub c: u8,
    pub d: u8,
    pub repeat: u8,
}

/// Whether `bytes` has the length of a lookup table.
pub open spec fn is_lut(bytes: Seq<u8>) -> bool {
    bytes.len() == LUT_LEN
}

/// The byte that holds phase `phase` of group `group`.
pub open spec fn waveform_byte(lut: Seq<u8>, group: int, phase: int) -> u8 {
    lut[group * PHASES as int + phase]
}

/// The first byte of a group: its phase 0, with sub-phase A on top.
pub open spec fn group_head(lut: Seq<u8>, group: int) -> u8 {
    waveform_byte(lut, group, 0)
}

/// The two-bit level of sub-phase `sub_phase` (0 for A up to 3 for D) that a
/// waveform byte packs.
pub open spec fn sub_phase_level(byte: u8, sub_phase: int) -> int {
    if sub_phase == 0 {
        byte as int / 64
    } else if sub_phase == 1 {
        (byte as int / 16) % 4
    } else if sub_phase == 2 {
        (byte as int / 4) % 4
    } else {
        byte as int % 4
    }
}

/// Timing row number `row` of a table.
pub open spec fn timing_row(lut: Seq<u8>, row: int) -> TimingRow {
    let at = TIMING_OFFSET as int + row * TIMING_ROW_LEN as int;
    TimingRow { a: lut[at], b: lut[at + 1], c: lut[at + 2], d: lut[at + 3], repeat: lut[at + 4] }
}

/// Whether `bytes` can be loaded as a lookup table.
pub fn check_len(bytes: &[u8]) -> (ok: bool)
    ensures
        ok == is_lut(bytes@),
{
    bytes.len() == LUT_LEN
}

/// Reads the level of one sub-phase of one phase of a waveform group.
/// `None` when the table has the wrong length or the phase or sub-phase does
/// not exist.
pub fn level(lut: &[u8], group: WaveformGroup, phase: usize, sub_phase: usize) -> (out: Option<u8>)
    ensures
        out is Some <==> is_lut(lut@) && phase < PHASES && sub_phase < SUB_PHASES,
        out matches Some(level) ==> level as int == sub_phase_level(
            waveform_byte(lut@, group.spec_index(), phase as int),
            sub_phase as int,
        ),
{
    if lut.len() != LUT_LEN || phase >= PHASES || sub_phase >= SUB_PHASES {
        return None;
    }
    let byte: u8 = lut[group.index() * PHASES + phase];
    let level: u8 = if sub_phase == 0 {
        byte >> 6
    } else if sub_phase == 1 {
        (byte >> 4) & 3
    } else if sub_phase == 2 {
        (byte >> 2) & 3
    } else {
        byte & 3
    };
    proof {
        assert(byte >> 6 == byte / 64) by (bit_vector);
        assert((byte >> 4) & 3 == (byte / 16) % 4) by (bit_vector);
        assert((byte >> 2) & 3 == (byte / 4) % 4) by (bit_vector);
        assert(byte & 3 == byte % 4) by (bit_vector);
    }
    Some(level)
}

/// Reads one timing row. `None` when the table has the wrong length or the row
/// does not exist.
pub fn timing(lut: &[u8], row: usize) -> (out: Option<TimingRow>)
    ensures
        out == if is_lut(lut@) && row < TIMING_ROWS {
            Some(timing_row(lut@, row as int))
        } else {
            None
        },
{
    if lut.len() != LUT_LEN || row >= TIMING_ROWS {
        return None;
    }
    let at: usize = TIMING_OFFSET + row * TIMING_ROW_LEN;
    Some(TimingRow { a: lut[at], b: lut[at + 1], c: lut[at + 2], d: lut[at + 3], repeat: lut[at + 4] })
}

/// The fast yellow table is a well-formed lookup table, and each of its five
/// waveform groups starts with the byte written in this file.
pub proof fn lemma_fast_yellow_layout()
    ensures
        is_lut(LUT_FAST_YELLOW@),
        WAVEFORM_GROUPS * PHASES + TIMING_ROWS * TIMING_ROW_LEN == LUT_LEN,
        group_head(LUT_FAST_YELLOW@, 0) == 0b11111010,
        group_head(LUT_FAST_YELLOW@, 1) == 0b11111010,
        group_head(LUT_FAST_YELLOW@, 2) == 0b11111010,
        group_head(LUT_FAST_YELLOW@, 3) == 0b11111010,
        group_head(LUT_FAST_YELLOW@, 4) == 0b10111111,
{
}

} // verus!
