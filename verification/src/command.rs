//! The controller commands that the driver uses, and their form on the wire.
//!
//! A command travels as one opcode byte, sent with the data/command line low,
//! followed by its argument bytes, sent with the line high.

use vstd::prelude::*;
use vstd::slice::slice_to_vec;

verus! {

/// Opcode: driver output control (rows low, rows high, gate scan).
pub const DRIVER_OUTPUT_CTRL: u8 = 0x01;

/// Opcode: soft start control (three bytes).
pub const SOFT_START_CTRL: u8 = 0x0C;

/// Opcode: deep sleep.
pub const DEEP_SLEEP: u8 = 0x10;

/// Opcode: data entry mode.
pub const DATA_ENTRY_MODE: u8 = 0x11;

/// Opcode: master activation, which starts the refresh.
pub const MASTER_ACTIVATION: u8 = 0x20;

/// Opcode: display update control 2 (update flags).
pub const UPDATE_CTRL_2: u8 = 0x22;

/// Opcode: write the black plane to RAM.
pub const WRITE_RAM_BLACK: u8 = 0x24;

/// Opcode: write the accent plane to RAM.
pub const WRITE_RAM_RED: u8 = 0x26;

/// Opcode: VCOM register.
pub const WRITE_VCOM: u8 = 0x2C;

/// Opcode: write the lookup table register.
pub const WRITE_LUT: u8 = 0x32;

/// Opcode: dummy line period.
pub const DUMMY_LINE_PERIOD: u8 = 0x3A;

/// Opcode: gate line width.
pub const GATE_LINE_WIDTH: u8 = 0x3B;

/// Opcode: RAM window in the X direction (start, end).
pub const RAM_X_WINDOW: u8 = 0x44;

/// Opcode: RAM window in the Y direction (start low, start high, end low, end high).
pub const RAM_Y_WINDOW: u8 = 0x45;

/// Opcode: RAM X address counter.
pub const RAM_X_COUNTER: u8 = 0x4E;

/// Opcode: RAM Y address counter.
pub const RAM_Y_COUNTER: u8 = 0x4F;

/// One command as plain values: the opcode and the argument bytes.
pub struct FrameView {
    pub opcode: u8,
    pub data: Seq<u8>,
}

/// One command ready for the transport: the opcode and the argument bytes.
#[derive(PartialEq, Eq, Debug)]
pub struct Frame {
    pub opcode: u8,
    pub data: Vec<u8>,
}

impl View for Frame {
    type V = FrameView;

    open spec fn view(&self) -> FrameView {
        FrameView { opcode: self.opcode, data: self.data@ }
    }
}

/// The frames of a list, each as plain values.
pub open spec fn wire(frames: Seq<Frame>) -> Seq<FrameView> {
    frames.map_values(|frame: Frame| frame@)
}

/// The less significant byte of a 16-bit value.
pub open spec fn low_byte(value: u16) -> u8 {
    (value % 256) as u8
}

/// The more significant byte of a 16-bit value.
pub open spec fn high_byte(value: u16) -> u8 {
    (value / 256) as u8
}

/// A command of the controller.
#[derive(Clone, Copy, PartialEq, Eq, Debug)]
pub enum Command<'a> {
    /// Number of gate lines and their scanning direction.
    DriverOutputControl { rows: u16, gate_scan: u8 },
    /// Soft start settings of the three booster phases.
    SoftStartControl(u8, u8, u8),
    /// Enter deep sleep in the given mode.
    DeepSleep(u8),
    /// Order in which the address counters advance while RAM is written.
    DataEntryMode(u8),
    /// Start the update sequence; BUSY is high while it runs.
    MasterActivation,
    /// Which steps the update sequence takes.
    UpdateControl2(u8),
    /// The black plane.
    WriteRamBlack(&'a [u8]),
    /// The accent plane.
    WriteRamRed(&'a [u8]),
    /// VCOM register value.
    WriteVcom(u8),
    /// The waveform lookup table.
    WriteLut(&'a [u8]),
    /// Dummy line period, in gate line widths.
    DummyLinePeriod(u8),
    /// Gate line width.
    GateLineWidth(u8),
    /// First and last byte column of the RAM window.
    RamXWindow { first_byte: u8, last_byte: u8 },
    /// First and last row of the RAM window.
    RamYWindow { first_row: u16, last_row: u16 },
    /// Byte column at which the next RAM write starts.
    RamXCounter(u8),
    /// Row at which the next RAM write starts.
    RamYCounter(u16),
}

impl<'a> Command<'a> {
    /// The opcode byte of the command.
    pub open spec fn spec_opcode(self) -> u8 {
        match self {
            Command::DriverOutputControl { .. } => DRIVER_OUTPUT_CTRL,
            Command::SoftStartControl(..) => SOFT_START_CTRL,
            Command::DeepSleep(_) => DEEP_SLEEP,
            Command::DataEntryMode(_) => DATA_ENTRY_MODE,
            Command::MasterActivation => MASTER_ACTIVATION,
            Command::UpdateControl2(_) => UPDATE_CTRL_2,
            Command::WriteRamBlack(_) => WRITE_RAM_BLACK,
            Command::WriteRamRed(_) => WRITE_RAM_RED,
            Command::WriteVcom(_) => WRITE_VCOM,
            Command::WriteLut(_) => WRITE_LUT,
            Command::DummyLinePeriod(_) => DUMMY_LINE_PERIOD,
            Command::GateLineWidth(_) => GATE_LINE_WIDTH,
            Command::RamXWindow { .. } => RAM_X_WINDOW,
            Command::RamYWindow { .. } => RAM_Y_WINDOW,
            Command::RamXCounter(_) => RAM_X_COUNTER,
            Command::RamYCounter(_) => RAM_Y_COUNTER,
        }
    }

    /// The argument bytes of the command, in the order in which they are sent.
    /// Sixteen-bit arguments go low byte first.
    pub open spec fn spec_data(self) -> Seq<u8> {
        match self {
            Command::DriverOutputControl { rows, gate_scan } => seq![
                low_byte(rows),
                high_byte(rows),
                gate_scan,
            ],
            Command::SoftStartControl(a, b, c) => seq![a, b, c],
            Command::DeepSleep(mode) => seq![mode],
            Command::DataEntryMode(mode) => seq![mode],
            Command::MasterActivation => Seq::empty(),
            Command::UpdateControl2(flags) => seq![flags],
            Command::WriteRamBlack(plane) => plane@,
            Command::WriteRamRed(plane) => plane@,
            Command::WriteVcom(value) => seq![value],
            Command::WriteLut(lut) => lut@,
            Command::DummyLinePeriod(period) => seq![period],
            Command::GateLineWidth(width) => seq![width],
            Command::RamXWindow { first_byte, last_byte } => seq![first_byte, last_byte],
            Command::RamYWindow { first_row, last_row } => seq![
                low_byte(first_row),
                high_byte(first_row),
                low_byte(last_row),
                high_byte(last_row),
            ],
            Command::RamXCounter(at) => seq![at],
            Command::RamYCounter(at) => seq![low_byte(at), high_byte(at)],
        }
    }

    /// The command as it goes over the wire.
    pub open spec fn frame(self) -> FrameView {
        FrameView { opcode: self.spec_opcode(), data: self.spec_data() }
    }

    /// The opcode byte of the command.
    pub fn opcode(&self) -> (opcode: u8)
        ensures
            opcode == self.spec_opcode(),
    {
        match self {
            Command::DriverOutputControl { .. } => DRIVER_OUTPUT_CTRL,
            Command::SoftStartControl(..) => SOFT_START_CTRL,
            Command::DeepSleep(_) => DEEP_SLEEP,
            Command::DataEntryMode(_) => DATA_ENTRY_MODE,
            Command::MasterActivation => MASTER_ACTIVATION,
            Command::UpdateControl2(_) => UPDATE_CTRL_2,
            Command::WriteRamBlack(_) => WRITE_RAM_BLACK,
            Command::WriteRamRed(_) => WRITE_RAM_RED,
            Command::WriteVcom(_) => WRITE_VCOM,
            Command::WriteLut(_) => WRITE_LUT,
            Command::DummyLinePeriod(_) => DUMMY_LINE_PERIOD,
            Command::GateLineWidth(_) => GATE_LINE_WIDTH,
            Command::RamXWindow { .. } => RAM_X_WINDOW,
            Command::RamYWindow { .. } => RAM_Y_WINDOW,
            Command::RamXCounter(_) => RAM_X_COUNTER,
            Command::RamYCounter(_) => RAM_Y_COUNTER,
        }
    }

    /// The argument bytes of the command.
    pub fn data(&self) -> (data: Vec<u8>)
        ensures
            data@ == self.spec_data(),
    {
        let data: Vec<u8> = match self {
            Command::DriverOutputControl { rows, gate_scan } => vec![
                (*rows % 256) as u8,
                (*rows / 256) as u8,
                *gate_scan,
            ],
            Command::SoftStartControl(a, b, c) => vec![*a, *b, *c],
            Command::DeepSleep(mode) => vec![*mode],
            Command::DataEntryMode(mode) => vec![*mode],
            Command::MasterActivation => Vec::new(),
            Command::UpdateControl2(flags) => vec![*flags],
            Command::WriteRamBlack(plane) => slice_to_vec(plane),
            Command::WriteRamRed(plane) => slice_to_vec(plane),
            Command::WriteVcom(value) => vec![*value],
            Command::WriteLut(lut) => slice_to_vec(lut),
            Command::DummyLinePeriod(period) => vec![*period],
            Command::GateLineWidth(width) => vec![*width],
            Command::RamXWindow { first_byte, last_byte } => vec![*first_byte, *last_byte],
            Command::RamYWindow { first_row, last_row } => vec![
                (*first_row % 256) as u8,
                (*first_row / 256) as u8,
                (*last_row % 256) as u8,
                (*last_row / 256) as u8,
            ],
            Command::RamXCounter(at) => vec![*at],
            Command::RamYCounter(at) => vec![(*at % 256) as u8, (*at / 256) as u8],
        };
        assert(data@ =~= self.spec_data());
        data
    }

    /// The command as a frame for the transport.
    pub fn encode(&self) -> (frame: Frame)
        ensures
            frame@ == self.frame(),
    {
        Frame { opcode: self.opcode(), data: self.data() }
    }
}

/// A sixteen-bit argument can be read back from its two bytes.
pub proof fn lemma_bytes_rebuild(value: u16)
    ensures
        low_byte(value) as int + 256 * high_byte(value) as int == value as int,
{
}

} // verus!
