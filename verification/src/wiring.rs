//! How the panel is wired to the host: the SPI port and the four control
//! lines, and the steps that bring each line up.

use vstd::prelude::*;

verus! {

/// Path of the SPI character device.
pub const SPI_DEVICE: &'static str = "/dev/spidev0.0";

/// Bits per SPI word.
pub const SPI_BITS_PER_WORD: u8 = 8;

/// Highest SPI clock, in hertz.
pub const SPI_MAX_SPEED_HZ: u32 = 4_000_000;

/// SPI mode: clock idle low, data sampled on the leading edge.
pub const SPI_MODE: u8 = 0;

/// BCM number of the chip select line.
pub const PIN_CS: u64 = 8;

/// BCM number of the BUSY line.
pub const PIN_BUSY: u64 = 17;

/// BCM number of the data/command line.
pub const PIN_DC: u64 = 22;

/// BCM number of the reset line.
pub const PIN_RESET: u64 = 27;

/// What a control line is used as.
#[derive(Clone, Copy, PartialEq, Eq, Structural, Debug)]
pub enum Role {
    /// Driven by the host; `idle_high` is the level it rests at.
    Output { idle_high: bool },
    /// Read by the host.
    Input,
}

/// One control line of the interface.
#[derive(Clone, Copy, PartialEq, Eq, Structural, Debug)]
pub struct PinSetup {
    pub number: u64,
    pub role: Role,
}

/// One step of bringing a line up.
#[derive(Clone, Copy, PartialEq, Eq, Structural, Debug)]
pub enum PinStep {
    /// Make the line available to user space.
    Export { pin: u64 },
    /// Wait until the line is seen as exported.
    AwaitExported { pin: u64 },
    /// Make the line an output (`true`) or an input (`false`).
    SetDirection { pin: u64, output: bool },
    /// Drive the line high (`true`) or low (`false`).
    SetValue { pin: u64, high: bool },
}

/// The four control lines in the order in which they are brought up: chip
/// select, BUSY, data/command, reset. Every output rests high.
pub open spec fn control_lines() -> Seq<PinSetup> {
    seq![
        PinSetup { number: PIN_CS, role: Role::Output { idle_high: true } },
        PinSetup { number: PIN_BUSY, role: Role::Input },
        PinSetup { number: PIN_DC, role: Role::Output { idle_high: true } },
        PinSetup { number: PIN_RESET, role: Role::Output { idle_high: true } },
    ]
}

/// The steps that bring one line up: export it, wait for it, set its
/// direction and, for an output, drive it to its resting level.
pub open spec fn line_steps(line: PinSetup) -> Seq<PinStep> {
    let common = seq![
        PinStep::Export { pin: line.number },
        PinStep::AwaitExported { pin: line.number },
        PinStep::SetDirection { pin: line.number, output: line.role is Output },
    ];
    match line.role {
        Role::Output { idle_high } => common.push(
            PinStep::SetValue { pin: line.number, high: idle_high },
        ),
        Role::Input => common,
    }
}

/// The steps that bring a list of lines up, one line after the other.
pub open spec fn lines_steps(lines: Seq<PinSetup>) -> Seq<PinStep>
    decreases lines.len(),
{
    if lines.len() == 0 {
        Seq::empty()
    } else {
        lines_steps(lines.drop_last()) + line_steps(lines.last())
    }
}

/// The four control lines.
pub fn pins() -> (lines: Vec<PinSetup>)
    ensures
        lines@ == control_lines(),
{
    let mut lines: Vec<PinSetup> = Vec::new();
    lines.push(PinSetup { number: PIN_CS, role: Role::Output { idle_high: true } });
    lines.push(PinSetup { number: PIN_BUSY, role: Role::Input });
    lines.push(PinSetup { number: PIN_DC, role: Role::Output { idle_high: true } });
    lines.push(PinSetup { number: PIN_RESET, role: Role::Output { idle_high: true } });
    assert(lines@ =~= control_lines());
    lines
}

/// The steps that bring the given lines up, in order.
pub fn bring_up(lines: &Vec<PinSetup>) -> (steps: Vec<PinStep>)
    ensures
        steps@ == lines_steps(lines@),
{
    let mut steps: Vec<PinStep> = Vec::new();
    let mut i: usize = 0;
    assert(lines@.take(0) =~= Seq::<PinSetup>::empty());
    while i < lines.len()
        invariant
            i <= lines.len(),
            steps@ == lines_steps(lines@.take(i as int)),
        decreases lines.len() - i,
    {
        let line = lines[i];
        let ghost before = steps@;
        steps.push(PinStep::Export { pin: line.number });
        steps.push(PinStep::AwaitExported { pin: line.number });
        match line.role {
            Role::Output { idle_high } => {
                steps.push(PinStep::SetDirection { pin: line.number, output: true });
                steps.push(PinStep::SetValue { pin: line.number, high: idle_high });
            },
            Role::Input => {
                steps.push(PinStep::SetDirection { pin: line.number, output: false });
            },
        }
        i += 1;
        proof {
            let now = lines@.take(i as int);
            assert(now.drop_last() =~= lines@.take(i - 1));
            assert(now.last() == line);
            assert(steps@ =~= before + line_steps(line));
        }
    }
    assert(lines@.take(lines@.len() as int) =~= lines@);
    steps
}

/// Bringing up the four control lines takes fifteen steps, starts by
/// exporting chip select and ends by driving reset high.
pub proof fn lemma_control_lines_steps()
    ensures
        lines_steps(control_lines()).len() == 15,
        lines_steps(control_lines()).first() == (PinStep::Export { pin: PIN_CS }),
        lines_steps(control_lines()).last() == (PinStep::SetValue { pin: PIN_RESET, high: true }),
{
    let lines = control_lines();
    let l3 = lines.drop_last();
    let l2 = l3.drop_last();
    let l1 = l2.drop_last();
    let l0 = l1.drop_last();
    assert(l0.len() == 0);
    reveal_with_fuel(lines_steps, 5);
    assert(lines_steps(l1) =~= line_steps(lines[0]));
    assert(lines_steps(l2) =~= line_steps(lines[0]) + line_steps(lines[1]));
    assert(lines_steps(l3) =~= lines_steps(l2) + line_steps(lines[2]));
    assert(lines_steps(lines) =~= lines_steps(l3) + line_steps(lines[3]));
}

} // verus!
