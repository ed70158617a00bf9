//! The panel driver: what is sent to the controller, and when.
//!
//! The driver decides; it performs nothing itself. It is handed events and
//! answers each with the next state and an action for the caller to perform:
//! pulse the reset line, or send a list of frames, each once BUSY is low.

use vstd::prelude::*;
use crate::command::{
    wire, Command, Frame, FrameView, RAM_X_COUNTER, RAM_Y_COUNTER, WRITE_LUT, WRITE_RAM_BLACK,
    WRITE_RAM_RED,
};
use crate::config::{PanelConfig, PanelSettings};

verus! {

/// Gate scanning direction sent with the driver output control.
pub const GATE_SCAN: u8 = 0x00;

/// Soft start setting of booster phase 1.
pub const SOFT_START_PHASE1: u8 = 0x8B;

/// Soft start setting of booster phase 2.
pub const SOFT_START_PHASE2: u8 = 0x9C;

/// Soft start setting of booster phase 3.
pub const SOFT_START_PHASE3: u8 = 0x96;

/// VCOM register value.
pub const VCOM: u8 = 0x3C;

/// Dummy line period, in gate line widths.
pub const DUMMY_LINE: u8 = 0x07;

/// Gate line width.
pub const GATE_WIDTH: u8 = 0x04;

/// Data entry mode: increment X, then Y.
pub const ENTRY_X_THEN_Y: u8 = 0x03;

/// Update flags of a full refresh.
pub const FULL_UPDATE: u8 = 0xC7;

/// Deep sleep mode that is left only by a reset.
pub const SLEEP_MODE: u8 = 0x01;

/// Bytes in one plane of a panel with these settings.
pub open spec fn plane_len(settings: PanelSettings) -> int {
    settings.rows as int * settings.cols as int / 8
}

/// The frames that configure the controller after a reset, in order.
pub open spec fn init_wire(settings: PanelSettings) -> Seq<FrameView> {
    seq![
        Command::DriverOutputControl { rows: settings.rows, gate_scan: GATE_SCAN }.frame(),
        Command::SoftStartControl(SOFT_START_PHASE1, SOFT_START_PHASE2, SOFT_START_PHASE3).frame(),
        Command::WriteVcom(VCOM).frame(),
        Command::DummyLinePeriod(DUMMY_LINE).frame(),
        Command::GateLineWidth(GATE_WIDTH).frame(),
        Command::DataEntryMode(ENTRY_X_THEN_Y).frame(),
        Command::RamXWindow { first_byte: 0, last_byte: (settings.cols / 8 - 1) as u8 }.frame(),
        Command::RamYWindow { first_row: 0, last_row: (settings.rows - 1) as u16 }.frame(),
        FrameView { opcode: WRITE_LUT, data: settings.lut },
    ]
}

/// The frames that upload both planes: for each, the RAM cursor goes back to
/// the origin and the plane follows as the data of one write.
pub open spec fn upload_wire(black: Seq<u8>, accent: Seq<u8>) -> Seq<FrameView> {
    seq![
        FrameView { opcode: RAM_X_COUNTER, data: seq![0u8] },
        FrameView { opcode: RAM_Y_COUNTER, data: seq![0u8, 0u8] },
        FrameView { opcode: WRITE_RAM_BLACK, data: black },
        FrameView { opcode: RAM_X_COUNTER, data: seq![0u8] },
        FrameView { opcode: RAM_Y_COUNTER, data: seq![0u8, 0u8] },
        FrameView { opcode: WRITE_RAM_RED, data: accent },
    ]
}

/// The frames that start a full refresh.
pub open spec fn refresh_wire() -> Seq<FrameView> {
    seq![Command::UpdateControl2(FULL_UPDATE).frame(), Command::MasterActivation.frame()]
}

/// The frame that puts the controller to sleep.
pub open spec fn sleep_wire() -> Seq<FrameView> {
    seq![Command::DeepSleep(SLEEP_MODE).frame()]
}

/// The frames that configure the controller after a reset.
pub fn init_frames(config: &PanelConfig) -> (frames: Vec<Frame>)
    ensures
        wire(frames@) == init_wire(config@),
{
    let rows = config.rows();
    let cols = config.cols();
    let mut frames: Vec<Frame> = Vec::new();
    frames.push(Command::DriverOutputControl { rows, gate_scan: GATE_SCAN }.encode());
    frames.push(
        Command::SoftStartControl(SOFT_START_PHASE1, SOFT_START_PHASE2, SOFT_START_PHASE3).encode(),
    );
    frames.push(Command::WriteVcom(VCOM).encode());
    frames.push(Command::DummyLinePeriod(DUMMY_LINE).encode());
    frames.push(Command::GateLineWidth(GATE_WIDTH).encode());
    frames.push(Command::DataEntryMode(ENTRY_X_THEN_Y).encode());
    frames.push(Command::RamXWindow { first_byte: 0, last_byte: cols / 8 - 1 }.encode());
    frames.push(Command::RamYWindow { first_row: 0, last_row: rows - 1 }.encode());
    frames.push(Command::WriteLut(config.lut()).encode());
    assert(wire(frames@) =~= init_wire(config@));
    frames
}

/// The frames that upload the two planes.
pub fn upload_frames(black: &[u8], accent: &[u8]) -> (frames: Vec<Frame>)
    ensures
        wire(frames@) == upload_wire(black@, accent@),
{
    let mut frames: Vec<Frame> = Vec::new();
    frames.push(Command::RamXCounter(0).encode());
    frames.push(Command::RamYCounter(0).encode());
    frames.push(Command::WriteRamBlack(black).encode());
    frames.push(Command::RamXCounter(0).encode());
    frames.push(Command::RamYCounter(0).encode());
    frames.push(Command::WriteRamRed(accent).encode());
    assert(wire(frames@) =~= upload_wire(black@, accent@));
    frames
}

/// The frames that start a full refresh.
pub fn refresh_frames() -> (frames: Vec<Frame>)
    ensures
        wire(frames@) == refresh_wire(),
{
    let mut frames: Vec<Frame> = Vec::new();
    frames.push(Command::UpdateControl2(FULL_UPDATE).encode());
    frames.push(Command::MasterActivation.encode());
    assert(wire(frames@) =~= refresh_wire());
    frames
}

/// The frame that puts the controller to sleep. Only a reset wakes it again.
pub fn sleep_frames() -> (frames: Vec<Frame>)
    ensures
        wire(frames@) == sleep_wire(),
{
    let mut frames: Vec<Frame> = Vec::new();
    frames.push(Command::DeepSleep(SLEEP_MODE).encode());
    assert(wire(frames@) =~= sleep_wire());
    frames
}

/// Where the driver stands.
#[derive(Clone, Copy, PartialEq, Eq, Structural, Debug)]
pub enum DriverState {
    /// Nothing has been done yet.
    Cold,
    /// The reset pulse is under way.
    Reset,
    /// The configuration is being sent.
    Configured,
    /// The controller is idle and takes planes.
    Ready,
    /// The planes are being sent.
    Writing,
    /// The panel is refreshing.
    Refreshing,
    /// Something failed; only a reset leads on.
    Faulted,
}

/// What can go wrong while an action is performed.
#[derive(Clone, Copy, PartialEq, Eq, Structural, Debug)]
pub enum Fault {
    /// BUSY stayed high for longer than the timeout.
    BusyTimeout,
    /// The SPI port or a control line failed.
    Transport,
}

/// What the caller tells the driver.
#[derive(Clone, Copy, PartialEq, Eq, Debug)]
pub enum Event<'a> {
    /// Bring the panel up, or back up after a fault.
    Start,
    /// The last action was performed to its end, and BUSY is low.
    Completed,
    /// Show these two planes.
    Commit { black: &'a [u8], accent: &'a [u8] },
    /// The last action failed.
    Failed(Fault),
}

/// An event as plain values.
pub enum EventView {
    Start,
    Completed,
    Commit { black: Seq<u8>, accent: Seq<u8> },
    Failed(Fault),
}

impl<'a> View for Event<'a> {
    type V = EventView;

    open spec fn view(&self) -> EventView {
        match *self {
            Event::Start => EventView::Start,
            Event::Completed => EventView::Completed,
            Event::Commit { black, accent } => EventView::Commit {
                black: black@,
                accent: accent@,
            },
            Event::Failed(fault) => EventView::Failed(fault),
        }
    }
}

/// What the driver asks the caller to do.
#[derive(PartialEq, Eq, Debug)]
pub enum Action {
    /// Nothing.
    Nothing,
    /// Pulse the reset line and wait until BUSY is low.
    PulseReset,
    /// Send these frames in order, each once BUSY is low, then wait until BUSY
    /// is low again.
    Send(Vec<Frame>),
    /// Hand this fault to the application.
    Report(Fault),
    /// The planes were not taken: the driver is not ready, or their size is
    /// not the panel's.
    Refuse,
}

/// An action as plain values.
pub enum ActionView {
    Nothing,
    PulseReset,
    Send(Seq<FrameView>),
    Report(Fault),
    Refuse,
}

impl View for Action {
    type V = ActionView;

    open spec fn view(&self) -> ActionView {
        match *self {
            Action::Nothing => ActionView::Nothing,
            Action::PulseReset => ActionView::PulseReset,
            Action::Send(frames) => ActionView::Send(wire(frames@)),
            Action::Report(fault) => ActionView::Report(fault),
            Action::Refuse => ActionView::Refuse,
        }
    }
}

/// Whether two planes can be shown on a panel with these settings: both have
/// the panel's plane size.
pub open spec fn planes_fit(settings: PanelSettings, black: Seq<u8>, accent: Seq<u8>) -> bool {
    black.len() == plane_len(settings) && accent.len() == plane_len(settings)
}

/// The state that follows `state` on `event`.
pub open spec fn next_state(state: DriverState, settings: PanelSettings, event: EventView)
    -> DriverState {
    match event {
        EventView::Start => DriverState::Reset,
        EventView::Completed => match state {
            DriverState::Reset => DriverState::Configured,
            DriverState::Configured => DriverState::Ready,
            DriverState::Writing => DriverState::Refreshing,
            DriverState::Refreshing => DriverState::Ready,
            _ => state,
        },
        EventView::Commit { black, accent } => if state == DriverState::Ready && planes_fit(
            settings,
            black,
            accent,
        ) {
            DriverState::Writing
        } else {
            state
        },
        EventView::Failed(_) => match state {
            DriverState::Cold => DriverState::Cold,
            _ => DriverState::Faulted,
        },
    }
}

/// The action that the driver answers `event` with in `state`.
pub open spec fn next_action(state: DriverState, settings: PanelSettings, event: EventView)
    -> ActionView {
    match event {
        EventView::Start => ActionView::PulseReset,
        EventView::Completed => match state {
            DriverState::Reset => ActionView::Send(init_wire(settings)),
            DriverState::Writing => ActionView::Send(refresh_wire()),
            _ => ActionView::Nothing,
        },
        EventView::Commit { black, accent } => if state == DriverState::Ready && planes_fit(
            settings,
            black,
            accent,
        ) {
            ActionView::Send(upload_wire(black, accent))
        } else {
            ActionView::Refuse
        },
        EventView::Failed(fault) => match state {
            DriverState::Cold | DriverState::Faulted => ActionView::Nothing,
            _ => ActionView::Report(fault),
        },
    }
}

/// The driver of one panel.
#[derive(Debug)]
pub struct PanelDriver<'a> {
    config: PanelConfig<'a>,
    state: DriverState,
}

impl<'a> PanelDriver<'a> {
    /// The state of the driver.
    pub closed spec fn spec_state(&self) -> DriverState {
        self.state
    }

    /// The settings of the panel that is driven.
    pub closed spec fn settings(&self) -> PanelSettings {
        self.config@
    }

    /// A driver for a panel that has not been touched yet.
    pub fn new(config: PanelConfig<'a>) -> (driver: Self)
        ensures
            driver.spec_state() == DriverState::Cold,
            driver.settings() == config@,
    {
        PanelDriver { config, state: DriverState::Cold }
    }

    /// The state of the driver.
    pub fn state(&self) -> (state: DriverState)
        ensures
            state == self.spec_state(),
    {
        self.state
    }

    /// The configuration of the panel that is driven.
    pub fn config(&self) -> (config: &PanelConfig<'a>)
        ensures
            config@ == self.settings(),
    {
        &self.config
    }

    /// Bytes in one plane of the panel.
    pub fn plane_len(&self) -> (len: usize)
        ensures
            len as int == plane_len(self.settings()),
    {
        let rows: u32 = self.config.rows() as u32;
        let cols: u32 = self.config.cols() as u32;
        assert(rows * cols <= 296 * 160) by (nonlinear_arith)
            requires
                rows <= 296,
                cols <= 160,
        ;
        (rows * cols / 8) as usize
    }

    /// Takes one event and answers with the action to perform. The state moves
    /// as [`next_state`] says; the settings never change.
    pub fn step(&mut self, event: Event) -> (action: Action)
        ensures
            final(self).spec_state() == next_state(
                old(self).spec_state(),
                old(self).settings(),
                event@,
            ),
            action@ == next_action(old(self).spec_state(), old(self).settings(), event@),
            final(self).settings() == old(self).settings(),
    {
        match event {
            Event::Start => {
                self.state = DriverState::Reset;
                Action::PulseReset
            },
            Event::Completed => match self.state {
                DriverState::Reset => {
                    self.state = DriverState::Configured;
                    Action::Send(init_frames(&self.config))
                },
                DriverState::Configured => {
                    self.state = DriverState::Ready;
                    Action::Nothing
                },
                DriverState::Writing => {
                    self.state = DriverState::Refreshing;
                    Action::Send(refresh_frames())
                },
                DriverState::Refreshing => {
                    self.state = DriverState::Ready;
                    Action::Nothing
                },
                _ => Action::Nothing,
            },
            Event::Commit { black, accent } => {
                let len = self.plane_len();
                if self.state == DriverState::Ready && black.len() == len && accent.len() == len {
                    self.state = DriverState::Writing;
                    Action::Send(upload_frames(black, accent))
                } else {
                    Action::Refuse
                }
            },
            Event::Failed(fault) => match self.state {
                DriverState::Cold | DriverState::Faulted => Action::Nothing,
                _ => {
                    self.state = DriverState::Faulted;
                    Action::Report(fault)
                },
            },
        }
    }
}

/// The configuration sequence ends with the lookup table, all 70 bytes of it
/// as they were configured, and sends eight frames before it.
pub proof fn lemma_init_carries_lut(settings: PanelSettings)
    requires
        settings.valid(),
    ensures
        init_wire(settings).len() == 9,
        init_wire(settings).last().opcode == WRITE_LUT,
        init_wire(settings).last().data == settings.lut,
        init_wire(settings).last().data.len() == 70,
{
}

/// Frames leave the driver on three occasions only: the configuration after a
/// reset, the planes when they are committed to a ready driver, and the refresh
/// once the planes are sent.
pub proof fn lemma_frames_only_when_due(
    state: DriverState,
    settings: PanelSettings,
    event: EventView,
)
    requires
        next_action(state, settings, event) is Send,
    ensures
        (state == DriverState::Reset && event is Completed) || (state == DriverState::Writing
            && event is Completed) || (state == DriverState::Ready && event is Commit),
{
}

/// After a fault the driver sends nothing and stays where it is until it is
/// started again.
pub proof fn lemma_faulted_is_silent(settings: PanelSettings, event: EventView)
    requires
        !(event is Start),
    ensures
        next_state(DriverState::Faulted, settings, event) == DriverState::Faulted,
        !(next_action(DriverState::Faulted, settings, event) is Send),
        !(next_action(DriverState::Faulted, settings, event) is PulseReset),
{
}

/// A failure while anything is under way faults the driver and is reported.
pub proof fn lemma_failure_faults(state: DriverState, settings: PanelSettings, fault: Fault)
    requires
        state != DriverState::Cold,
        state != DriverState::Faulted,
    ensures
        next_state(state, settings, EventView::Failed(fault)) == DriverState::Faulted,
        next_action(state, settings, EventView::Failed(fault)) == ActionView::Report(fault),
{
}

/// Starting always leads to exactly one reset pulse, from any state.
pub proof fn lemma_start_resets(state: DriverState, settings: PanelSettings)
    ensures
        next_state(state, settings, EventView::Start) == DriverState::Reset,
        next_action(state, settings, EventView::Start) == ActionView::PulseReset,
{
}

/// From a cold start the driver is ready after the reset and the
/// configuration, having sent the configuration frames and nothing else.
pub proof fn lemma_bring_up(settings: PanelSettings)
    ensures
        ({
            let first = next_state(DriverState::Cold, settings, EventView::Start);
            let second = next_state(first, settings, EventView::Completed);
            let third = next_state(second, settings, EventView::Completed);
            &&& next_action(DriverState::Cold, settings, EventView::Start)
                == ActionView::PulseReset
            &&& next_action(first, settings, EventView::Completed) == ActionView::Send(
                init_wire(settings),
            )
            &&& next_action(second, settings, EventView::Completed) == ActionView::Nothing
            &&& third == DriverState::Ready
        }),
{
}

/// Committing planes of the panel's size to a ready driver sends the planes,
/// then the refresh, and leaves the driver ready again.
pub proof fn lemma_refresh_cycle(settings: PanelSettings, black: Seq<u8>, accent: Seq<u8>)
    requires
        planes_fit(settings, black, accent),
    ensures
        ({
            let commit = EventView::Commit { black, accent };
            let first = next_state(DriverState::Ready, settings, commit);
            let second = next_state(first, settings, EventView::Completed);
            let third = next_state(second, settings, EventView::Completed);
            &&& next_action(DriverState::Ready, settings, commit) == ActionView::Send(
                upload_wire(black, accent),
            )
            &&& next_action(first, settings, EventView::Completed) == ActionView::Send(
                refresh_wire(),
            )
            &&& next_action(second, settings, EventView::Completed) == ActionView::Nothing
            &&& third == DriverState::Ready
        }),
{
}

} // verus!
