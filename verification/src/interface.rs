//! The transport to the controller: what happens on the control lines and the
//! SPI port for each primitive, and how BUSY is waited for.
//!
//! Nothing here touches hardware. Each primitive is a list of steps for the
//! caller to perform in order; waiting for BUSY is a small state machine that
//! is told what the line reads and answers what to do next.

use vstd::prelude::*;
use crate::command::{wire, Frame, FrameView};

verus! {

/// How long the reset line is held low, in milliseconds.
pub const RESET_HOLD_MS: u32 = 10;

/// Pause between two reads of BUSY, in milliseconds.
pub const POLL_PAUSE_MS: u32 = 1;

/// Timeout for a full refresh, in milliseconds.
pub const REFRESH_TIMEOUT_MS: u32 = 30_000;

/// The most bytes that the host's SPI device takes in one transfer.
pub const TRANSFER_LIMIT: usize = 4096;

/// An output line of the interface.
#[derive(Clone, Copy, PartialEq, Eq, Structural, Debug)]
pub enum Line {
    /// Chip select: low while a transaction is under way.
    ChipSelect,
    /// Data/command: low for an opcode byte, high for data bytes.
    DataCommand,
    /// Reset: pulsed low to reset the controller.
    Reset,
}

/// One step on the wire, as plain values.
pub enum StepView {
    AwaitIdle,
    Drive { line: Line, high: bool },
    Hold { ms: u32 },
    Write { bytes: Seq<u8> },
}

/// One step on the wire.
#[derive(PartialEq, Eq, Debug)]
pub enum Step {
    /// Wait until BUSY reads low.
    AwaitIdle,
    /// Drive an output line high or low.
    Drive { line: Line, high: bool },
    /// Let this many milliseconds pass.
    Hold { ms: u32 },
    /// Write these bytes to the SPI port as one all-or-nothing write.
    Write { bytes: Vec<u8> },
}

impl View for Step {
    type V = StepView;

    open spec fn view(&self) -> StepView {
        match *self {
            Step::AwaitIdle => StepView::AwaitIdle,
            Step::Drive { line, high } => StepView::Drive { line, high },
            Step::Hold { ms } => StepView::Hold { ms },
            Step::Write { bytes } => StepView::Write { bytes: bytes@ },
        }
    }
}

/// The steps of a list, each as plain values.
pub open spec fn trace(steps: Seq<Step>) -> Seq<StepView> {
    steps.map_values(|step: Step| step@)
}

/// A reset: the line goes low for the hold time and high again, then the
/// controller is waited for.
pub open spec fn reset_trace() -> Seq<StepView> {
    seq![
        StepView::Drive { line: Line::Reset, high: false },
        StepView::Hold { ms: RESET_HOLD_MS },
        StepView::Drive { line: Line::Reset, high: true },
        StepView::AwaitIdle,
    ]
}

/// One command: once the controller is idle, chip select frames the opcode,
/// written with data/command low, and the data, written with it high.
pub open spec fn command_trace(opcode: u8, data: Seq<u8>) -> Seq<StepView> {
    seq![
        StepView::AwaitIdle,
        StepView::Drive { line: Line::ChipSelect, high: false },
        StepView::Drive { line: Line::DataCommand, high: false },
        StepView::Write { bytes: seq![opcode] },
        StepView::Drive { line: Line::DataCommand, high: true },
        StepView::Write { bytes: data },
        StepView::Drive { line: Line::ChipSelect, high: true },
    ]
}

/// Data alone: as a command without its opcode, data/command being high
/// already.
pub open spec fn data_trace(data: Seq<u8>) -> Seq<StepView> {
    seq![
        StepView::AwaitIdle,
        StepView::Drive { line: Line::ChipSelect, high: false },
        StepView::Write { bytes: data },
        StepView::Drive { line: Line::ChipSelect, high: true },
    ]
}

/// The commands of a list of frames one after the other.
pub open spec fn frames_trace(frames: Seq<FrameView>) -> Seq<StepView>
    decreases frames.len(),
{
    if frames.len() == 0 {
        Seq::empty()
    } else {
        frames_trace(frames.drop_last()) + command_trace(
            frames.last().opcode,
            frames.last().data,
        )
    }
}

/// A copy of `bytes`.
fn copy_bytes(bytes: &Vec<u8>) -> (copy: Vec<u8>)
    ensures
        copy@ == bytes@,
{
    let mut copy: Vec<u8> = Vec::with_capacity(bytes.len());
    let mut i: usize = 0;
    while i < bytes.len()
        invariant
            i <= bytes.len(),
            copy@ == bytes@.take(i as int),
        decreases bytes.len() - i,
    {
        copy.push(bytes[i]);
        i += 1;
        assert(copy@ =~= bytes@.take(i as int));
    }
    assert(bytes@.take(bytes@.len() as int) =~= bytes@);
    copy
}

/// The steps of a reset.
pub fn reset() -> (steps: Vec<Step>)
    ensures
        trace(steps@) == reset_trace(),
{
    let mut steps: Vec<Step> = Vec::new();
    steps.push(Step::Drive { line: Line::Reset, high: false });
    steps.push(Step::Hold { ms: RESET_HOLD_MS });
    steps.push(Step::Drive { line: Line::Reset, high: true });
    steps.push(Step::AwaitIdle);
    assert(trace(steps@) =~= reset_trace());
    steps
}

/// The steps that send one command with its data, which may be empty.
pub fn send_command(opcode: u8, data: Vec<u8>) -> (steps: Vec<Step>)
    ensures
        trace(steps@) == command_trace(opcode, data@),
{
    let mut steps: Vec<Step> = Vec::new();
    steps.push(Step::AwaitIdle);
    steps.push(Step::Drive { line: Line::ChipSelect, high: false });
    steps.push(Step::Drive { line: Line::DataCommand, high: false });
    steps.push(Step::Write { bytes: vec![opcode] });
    steps.push(Step::Drive { line: Line::DataCommand, high: true });
    steps.push(Step::Write { bytes: data });
    steps.push(Step::Drive { line: Line::ChipSelect, high: true });
    assert(steps@[3]@ == StepView::Write { bytes: seq![opcode] }) by {
        assert(steps@[3]->Write_bytes@ =~= seq![opcode]);
    }
    assert(trace(steps@) =~= command_trace(opcode, data@));
    steps
}

/// The steps that send data without a command before it.
pub fn send_data(data: Vec<u8>) -> (steps: Vec<Step>)
    ensures
        trace(steps@) == data_trace(data@),
{
    let mut steps: Vec<Step> = Vec::new();
    steps.push(Step::AwaitIdle);
    steps.push(Step::Drive { line: Line::ChipSelect, high: false });
    steps.push(Step::Write { bytes: data });
    steps.push(Step::Drive { line: Line::ChipSelect, high: true });
    assert(trace(steps@) =~= data_trace(data@));
    steps
}

/// The steps that send a list of frames, one command after the other.
pub fn send_frames(frames: &Vec<Frame>) -> (steps: Vec<Step>)
    ensures
        trace(steps@) == frames_trace(wire(frames@)),
{
    let ghost views = wire(frames@);
    let mut steps: Vec<Step> = Vec::new();
    let mut i: usize = 0;
    assert(trace(steps@) =~= frames_trace(views.take(0)));
    while i < frames.len()
        invariant
            i <= frames.len(),
            views == wire(frames@),
            trace(steps@) == frames_trace(views.take(i as int)),
        decreases frames.len() - i,
    {
        let ghost before = trace(steps@);
        let mut one = send_command(frames[i].opcode, copy_bytes(&frames[i].data));
        let ghost added = trace(one@);
        steps.append(&mut one);
        i += 1;
        proof {
            let now = views.take(i as int);
            assert(now.drop_last() =~= views.take(i - 1));
            assert(now.last() == frames@[i - 1]@);
            assert(trace(steps@) =~= before + added);
        }
    }
    assert(views.take(frames@.len() as int) =~= views);
    steps
}

/// In the steps of a command the controller is waited for first, chip select
/// goes low before anything is written and high after everything, and
/// data/command is low under the opcode and high under the data.
pub proof fn lemma_command_framing(opcode: u8, data: Seq<u8>)
    ensures
        ({
            let steps = command_trace(opcode, data);
            &&& steps.first() == StepView::AwaitIdle
            &&& steps[1] == StepView::Drive { line: Line::ChipSelect, high: false }
            &&& steps.last() == StepView::Drive { line: Line::ChipSelect, high: true }
            &&& forall|i: int|
                0 <= i < steps.len() && #[trigger] steps[i] is Write ==> 1 < i < steps.len() - 1
            &&& steps[2] == StepView::Drive { line: Line::DataCommand, high: false }
            &&& steps[3] == StepView::Write { bytes: seq![opcode] }
            &&& steps[4] == StepView::Drive { line: Line::DataCommand, high: true }
            &&& steps[5] == StepView::Write { bytes: data }
        }),
{
}

/// Each frame adds exactly the seven steps of its command.
pub proof fn lemma_frames_trace_len(frames: Seq<FrameView>)
    ensures
        frames_trace(frames).len() == 7 * frames.len(),
    decreases frames.len(),
{
    if frames.len() > 0 {
        lemma_frames_trace_len(frames.drop_last());
    }
}

/// In the steps of a list of frames, frame number `i` takes the seven steps
/// from `7 * i` on, and they are the steps of its command: so every command
/// is waited for and framed by chip select on its own.
pub proof fn lemma_frames_trace_at(frames: Seq<FrameView>, i: int)
    requires
        0 <= i < frames.len(),
    ensures
        frames_trace(frames).len() == 7 * frames.len(),
        frames_trace(frames).subrange(7 * i, 7 * i + 7) == command_trace(
            frames[i].opcode,
            frames[i].data,
        ),
    decreases frames.len(),
{
    lemma_frames_trace_len(frames);
    lemma_frames_trace_len(frames.drop_last());
    let head = frames_trace(frames.drop_last());
    let tail = command_trace(frames.last().opcode, frames.last().data);
    if i == frames.len() - 1 {
        assert((head + tail).subrange(7 * i, 7 * i + 7) =~= tail);
    } else {
        lemma_frames_trace_at(frames.drop_last(), i);
        assert((head + tail).subrange(7 * i, 7 * i + 7) =~= head.subrange(7 * i, 7 * i + 7));
    }
}

/// What a read of BUSY leads to.
#[derive(Clone, Copy, PartialEq, Eq, Structural, Debug)]
pub enum Poll {
    /// BUSY is low: the controller takes the next command.
    Idle,
    /// BUSY is high: pause this many milliseconds and read again.
    Pause { ms: u32 },
    /// BUSY is still high after the timeout: a hard fault.
    TimedOut,
}

/// Waits for BUSY to go low, up to a timeout.
#[derive(Debug)]
pub struct BusyWait {
    waited_ms: u32,
    timeout_ms: u32,
}

impl BusyWait {
    /// Milliseconds paused so far.
    pub closed spec fn waited(&self) -> int {
        self.waited_ms as int
    }

    /// Milliseconds after which the wait gives up.
    pub closed spec fn timeout(&self) -> int {
        self.timeout_ms as int
    }

    /// What a read of BUSY leads to after `waited` of `timeout` milliseconds.
    pub open spec fn outcome(waited: int, timeout: int, busy: bool) -> Poll {
        if !busy {
            Poll::Idle
        } else if waited >= timeout {
            Poll::TimedOut
        } else {
            Poll::Pause { ms: POLL_PAUSE_MS }
        }
    }

    /// A wait that has not paused yet.
    pub fn new(timeout_ms: u32) -> (wait: Self)
        ensures
            wait.waited() == 0,
            wait.timeout() == timeout_ms,
    {
        BusyWait { waited_ms: 0, timeout_ms }
    }

    #[verifier::type_invariant]
    spec fn within_timeout(self) -> bool {
        self.waited_ms <= self.timeout_ms
    }

    /// Takes one read of BUSY. A pause that is handed out counts as waited.
    pub fn poll(&mut self, busy: bool) -> (poll: Poll)
        ensures
            poll == Self::outcome(old(self).waited(), old(self).timeout(), busy),
            final(self).timeout() == old(self).timeout(),
            final(self).waited() == if poll is Pause {
                old(self).waited() + POLL_PAUSE_MS
            } else {
                old(self).waited()
            },
            final(self).waited() <= final(self).timeout(),
    {
        proof {
            use_type_invariant(&*self);
        }
        if !busy {
            Poll::Idle
        } else if self.waited_ms >= self.timeout_ms {
            Poll::TimedOut
        } else {
            self.waited_ms = self.waited_ms + POLL_PAUSE_MS;
            Poll::Pause { ms: POLL_PAUSE_MS }
        }
    }
}

/// While BUSY stays high a wait times out exactly when the pauses handed out
/// add up to the timeout, neither sooner nor later.
pub proof fn lemma_timeout_is_exact(waited: int, timeout: int)
    requires
        0 <= waited <= timeout,
    ensures
        BusyWait::outcome(waited, timeout, true) is TimedOut <==> waited == timeout,
        BusyWait::outcome(waited, timeout, false) is Idle,
{
}

/// What the port does after one attempt at a write.
#[derive(Clone, Copy, PartialEq, Eq, Structural, Debug)]
pub enum WriteNext {
    /// Every byte is out.
    Done,
    /// The attempt fell short: write again, starting at byte `from`.
    Again { from: usize },
    /// The attempt fell short and no attempt is left: a hard fault.
    Fatal,
}

/// Follows a write through attempts that may fall short, up to a number of
/// further attempts.
#[derive(Debug)]
pub struct ShortWrite {
    len: usize,
    sent: usize,
    retries: u32,
}

impl ShortWrite {
    /// Bytes to write in all.
    pub closed spec fn len(&self) -> int {
        self.len as int
    }

    /// Bytes that are out so far.
    pub closed spec fn sent(&self) -> int {
        self.sent as int
    }

    /// Further attempts that are left.
    pub closed spec fn retries(&self) -> int {
        self.retries as int
    }

    /// Bytes out after an attempt that wrote `count` more; a count beyond the
    /// end counts as the end.
    pub open spec fn sent_after(sent: int, len: int, count: int) -> int {
        if count >= len - sent {
            len
        } else {
            sent + count
        }
    }

    /// What an attempt that wrote `count` bytes leads to.
    pub open spec fn outcome(sent: int, len: int, retries: int, count: int) -> WriteNext {
        if Self::sent_after(sent, len, count) == len {
            WriteNext::Done
        } else if retries == 0 {
            WriteNext::Fatal
        } else {
            WriteNext::Again { from: Self::sent_after(sent, len, count) as usize }
        }
    }

    #[verifier::type_invariant]
    spec fn within_len(self) -> bool {
        self.sent <= self.len
    }

    /// A write of `len` bytes that may be attempted `retries` more times after
    /// the first attempt.
    pub fn new(len: usize, retries: u32) -> (write: Self)
        ensures
            write.len() == len,
            write.sent() == 0,
            write.retries() == retries,
    {
        ShortWrite { len, sent: 0, retries }
    }

    /// Takes the number of bytes that the last attempt wrote. An attempt that
    /// is handed out counts against the attempts that are left.
    pub fn wrote(&mut self, count: usize) -> (next: WriteNext)
        ensures
            next == Self::outcome(
                old(self).sent(),
                old(self).len(),
                old(self).retries(),
                count as int,
            ),
            final(self).len() == old(self).len(),
            final(self).sent() == Self::sent_after(
                old(self).sent(),
                old(self).len(),
                count as int,
            ),
            final(self).retries() == if next is Again {
                old(self).retries() - 1
            } else {
                old(self).retries()
            },
    {
        proof {
            use_type_invariant(&*self);
        }
        if count >= self.len - self.sent {
            self.sent = self.len;
            WriteNext::Done
        } else {
            self.sent = self.sent + count;
            if self.retries == 0 {
                WriteNext::Fatal
            } else {
                self.retries = self.retries - 1;
                WriteNext::Again { from: self.sent }
            }
        }
    }
}

/// A write that keeps falling short by whole attempts of nothing ends in a
/// hard fault exactly when its attempts are used up; one that gets every byte
/// out is done whatever is left.
pub proof fn lemma_short_write_ends(sent: int, len: int, retries: int)
    requires
        0 <= sent < len,
        0 <= retries,
    ensures
        ShortWrite::outcome(sent, len, retries, 0) is Fatal <==> retries == 0,
        ShortWrite::outcome(sent, len, retries, len - sent) is Done,
{
}

/// Number of transfers that a write of `len` bytes takes.
pub open spec fn transfer_count(len: int, limit: int) -> int {
    (len + limit - 1) / limit
}

/// The half-open byte range of transfer number `i` of a write of `len` bytes.
pub open spec fn transfer_range(i: int, len: int, limit: int) -> (int, int) {
    (i * limit, if (i + 1) * limit <= len { (i + 1) * limit } else { len })
}

/// Cuts a write of `len` bytes into transfers of at most `limit` bytes and
/// gives the byte range of each, in order.
pub fn transfer_plan(len: usize, limit: usize) -> (plan: Vec<(usize, usize)>)
    requires
        limit > 0,
    ensures
        plan@.len() == transfer_count(len as int, limit as int),
        forall|i: int|
            0 <= i < plan@.len() ==> (#[trigger] plan@[i].0 as int, plan@[i].1 as int)
                == transfer_range(i, len as int, limit as int),
{
    let mut plan: Vec<(usize, usize)> = Vec::new();
    let mut start: usize = 0;
    proof {
        lemma_count_bounds(0, len as int, limit as int);
    }
    while start < len
        invariant
            limit > 0,
            start <= len,
            start == plan@.len() * limit,
            start == len ==> plan@.len() == transfer_count(len as int, limit as int),
            forall|i: int|
                0 <= i < plan@.len() ==> (#[trigger] plan@[i].0 as int, plan@[i].1 as int)
                    == transfer_range(i, len as int, limit as int),
        decreases len - start,
    {
        let ghost k = plan@.len() as int;
        proof {
            assert((k + 1) * limit == k * limit + limit) by (nonlinear_arith);
            lemma_count_bounds(k + 1, len as int, limit as int);
        }
        if len - start <= limit {
            plan.push((start, len));
            return plan;
        }
        let end: usize = start + limit;
        plan.push((start, end));
        start = end;
    }
    plan
}

proof fn lemma_count_bounds(k: int, len: int, limit: int)
    requires
        limit > 0,
        0 <= k,
        0 <= len,
    ensures
        (k - 1) * limit < len <= k * limit ==> transfer_count(len, limit) == k,
{
    if (k - 1) * limit < len <= k * limit {
        let n = len + limit - 1;
        assert((k - 1) * limit + limit == k * limit) by (nonlinear_arith);
        assert((k + 1) * limit == k * limit + limit) by (nonlinear_arith);
        assert(n / limit == k) by (nonlinear_arith)
            requires
                limit > 0,
                k * limit <= n < (k + 1) * limit,
        ;
    }
}

/// The transfers of a write follow one another without gap from the first
/// byte to the last, none is empty or longer than the limit, and all but the
/// last are full.
pub proof fn lemma_plan_is_contiguous(len: int, limit: int, i: int)
    requires
        limit > 0,
        0 <= len,
        0 <= i < transfer_count(len, limit),
    ensures
        transfer_range(0, len, limit).0 == 0,
        transfer_range(transfer_count(len, limit) - 1, len, limit).1 == len,
        0 < transfer_range(i, len, limit).1 - transfer_range(i, len, limit).0 <= limit,
        i < transfer_count(len, limit) - 1 ==> transfer_range(i, len, limit).1
            - transfer_range(i, len, limit).0 == limit && transfer_range(i, len, limit).1
            == transfer_range(i + 1, len, limit).0,
{
    let n = transfer_count(len, limit);
    assert((n - 1) * limit < len <= n * limit) by (nonlinear_arith)
        requires
            limit > 0,
            0 <= len,
            n == (len + limit - 1) / limit,
    ;
    assert((i + 1) * limit == i * limit + limit) by (nonlinear_arith);
    assert((n - 1) * limit + limit == n * limit) by (nonlinear_arith);
    if i < n - 1 {
        assert((i + 1) * limit <= (n - 1) * limit) by (nonlinear_arith)
            requires
                i + 1 <= n - 1,
                limit > 0,
        ;
    } else {
        assert(i == n - 1);
    }
    assert(0 * limit == 0);
    if n - 1 > 0 {
        assert(limit <= (n - 1) * limit) by (nonlinear_arith)
            requires
                n - 1 >= 1,
                limit > 0,
        ;
    }
}

} // verus!
