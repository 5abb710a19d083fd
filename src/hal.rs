use vstd::prelude::*;
use crate::printing::Instruction;
use crate::times::{LONG_MS, SHORT_MS};

verus! {

/// Pause after a whole command has been written, in milliseconds.
pub const DELAY_MS_AFTER_COMMAND_SENT: u64 = 50;

/// Pause before each byte is written, in milliseconds.
pub const DELAY_MS_AFTER_BYTE_SENT: u64 = 10;

/// Pause between two reads of the CTS line, and after it is seen asserted, in milliseconds.
pub const DELAY_MS_FOR_CTS_NEXT_READ: u64 = 5;

/// How many times the CTS line is read before the device is given up.
pub const CTS_ATTEMPTS: u32 = 1000;

/// How many times the status byte is read before the device is given up.
pub const ACK_ATTEMPTS: u32 = 10;

/// Status byte of a device that is on-line.
pub const STATUS_OK: u8 = 0xA1;

/// Status byte of a device in an unexpected state.
pub const STATUS_UNEXPECTED: u8 = 0xA0;

/// Command byte: go off-line.
pub const GO_OFFLINE: u8 = 0xA0;

/// Command byte: go on-line.
pub const GO_ONLINE: u8 = 0xA1;

/// Command byte: start accepting print commands.
pub const START_ACCEPTING: u8 = 0xA2;

/// Command byte: stop accepting print commands.
pub const STOP_ACCEPTING: u8 = 0xA3;

/// Command byte: report the status.
pub const READ_STATUS: u8 = 0xA4;

/// What the driver found when it looked at the instruction channel.
#[derive(PartialEq, Eq, Debug, Clone, Copy)]
pub enum Received {
    /// The next instruction.
    Item(Instruction),
    /// Nothing is queued yet.
    Nothing,
    /// The sender is gone and the queue is drained.
    Disconnected,
}

/// One primitive step of the device driver.
#[derive(PartialEq, Eq, Structural, Debug, Clone, Copy)]
pub enum Step {
    /// Sleep for the given number of milliseconds.
    Sleep(u64),
    /// Write one byte to the serial line.
    Write(u8),
    /// Poll the CTS line until the device asserts it (see `cts_poll`).
    AwaitClearToSend,
    /// Poll the status byte until the device acknowledges (see `ack_poll`).
    AwaitAcknowledge,
    /// Leave the driver loop.
    Stop,
}

/// The steps that write one byte; `paced` bytes wait for CTS afterwards.
pub open spec fn byte_steps(b: u8, paced: bool) -> Seq<Step> {
    if paced {
        seq![Step::Sleep(DELAY_MS_AFTER_BYTE_SENT), Step::Write(b), Step::AwaitClearToSend]
    } else {
        seq![Step::Sleep(DELAY_MS_AFTER_BYTE_SENT), Step::Write(b)]
    }
}

/// The steps that write paced bytes, in order.
pub open spec fn bytes_steps(bs: Seq<u8>) -> Seq<Step>
    decreases bs.len(),
{
    if bs.len() == 0 {
        Seq::empty()
    } else {
        bytes_steps(bs.drop_last()) + byte_steps(bs.last(), true)
    }
}

/// The steps of a command: its bytes, paced, then the command pause.
pub open spec fn spec_command(bs: Seq<u8>) -> Seq<Step> {
    bytes_steps(bs) + seq![Step::Sleep(DELAY_MS_AFTER_COMMAND_SENT)]
}

/// Start-up: go on-line, ask for the status and wait for the acknowledge,
/// then start accepting print commands.
pub open spec fn spec_prepare() -> Seq<Step> {
    spec_command(seq![GO_ONLINE, 0]) + spec_command(seq![READ_STATUS, 0]) + seq![
        Step::AwaitAcknowledge,
    ] + spec_command(seq![START_ACCEPTING, 0])
}

/// Power-down: let the last motion finish, stop accepting commands, go
/// off-line (the device drops CTS once off-line, so the last byte is not
/// paced), and leave the loop.
pub open spec fn spec_shutdown() -> Seq<Step> {
    seq![Step::Sleep(LONG_MS)] + spec_command(seq![STOP_ACCEPTING, 0]) + byte_steps(GO_OFFLINE, true)
        + byte_steps(0, false) + seq![Step::Stop]
}

/// The steps the driver takes for what it received.
pub open spec fn spec_plan(event: Received) -> Seq<Step> {
    match event {
        Received::Item(Instruction::Prepare) => spec_prepare(),
        Received::Item(Instruction::SendBytes(b)) => spec_command(b@),
        Received::Item(Instruction::Idle(ms)) => seq![Step::Sleep(ms)],
        Received::Item(Instruction::Empty) => Seq::empty(),
        Received::Item(Instruction::Shutdown) => spec_shutdown(),
        Received::Item(Instruction::Halt) => seq![Step::Stop],
        Received::Nothing => seq![Step::Sleep(SHORT_MS)],
        Received::Disconnected => seq![Step::Stop],
    }
}

/// Append the steps that write one byte.
fn push_byte(steps: &mut Vec<Step>, b: u8, paced: bool)
    ensures
        final(steps)@ == old(steps)@ + byte_steps(b, paced),
{
    steps.push(Step::Sleep(DELAY_MS_AFTER_BYTE_SENT));
    steps.push(Step::Write(b));
    if paced {
        steps.push(Step::AwaitClearToSend);
    }
    assert(final(steps)@ =~= old(steps)@ + byte_steps(b, paced));
}

/// Append the steps of a command.
fn push_command(steps: &mut Vec<Step>, bytes: &[u8])
    ensures
        final(steps)@ == old(steps)@ + spec_command(bytes@),
{
    let ghost start = steps@;
    let mut i: usize = 0;
    while i < bytes.len()
        invariant
            0 <= i <= bytes@.len(),
            steps@ == start + bytes_steps(bytes@.take(i as int)),
        decreases bytes@.len() - i,
    {
        proof {
            assert(bytes@.take(i + 1).drop_last() =~= bytes@.take(i as int));
            assert(bytes@.take(i + 1).last() == bytes@[i as int]);
        }
        push_byte(steps, bytes[i], true);
        proof {
            assert(start + bytes_steps(bytes@.take(i as int)) + byte_steps(bytes@[i as int], true)
                =~= start + bytes_steps(bytes@.take(i + 1)));
        }
        i = i + 1;
    }
    assert(bytes@.take(i as int) =~= bytes@);
    steps.push(Step::Sleep(DELAY_MS_AFTER_COMMAND_SENT));
    assert(final(steps)@ =~= old(steps)@ + spec_command(bytes@));
}

/// The steps of a command given as bytes.
pub fn command(bytes: &[u8]) -> (r: Vec<Step>)
    ensures
        r@ == spec_command(bytes@),
{
    let mut steps: Vec<Step> = Vec::new();
    push_command(&mut steps, bytes);
    assert(steps@ =~= spec_command(bytes@));
    steps
}

/// The start-up handshake.
pub fn prepare() -> (r: Vec<Step>)
    ensures
        r@ == spec_prepare(),
{
    let mut steps: Vec<Step> = Vec::new();
    push_command(&mut steps, &[GO_ONLINE, 0x00]);
    push_command(&mut steps, &[READ_STATUS, 0x00]);
    steps.push(Step::AwaitAcknowledge);
    push_command(&mut steps, &[START_ACCEPTING, 0x00]);
    assert(seq![GO_ONLINE, 0u8] =~= [GO_ONLINE, 0x00u8]@);
    assert(steps@ =~= spec_prepare());
    steps
}

/// The power-down sequence.
pub fn shutdown() -> (r: Vec<Step>)
    ensures
        r@ == spec_shutdown(),
{
    let mut steps: Vec<Step> = Vec::new();
    steps.push(Step::Sleep(LONG_MS));
    push_command(&mut steps, &[STOP_ACCEPTING, 0x00]);
    push_byte(&mut steps, GO_OFFLINE, true);
    push_byte(&mut steps, 0x00, false);
    steps.push(Step::Stop);
    assert(steps@ =~= spec_shutdown());
    steps
}

/// The steps the driver takes for what it received from the channel.
pub fn plan(event: Received) -> (r: Vec<Step>)
    ensures
        r@ == spec_plan(event),
{
    match event {
        Received::Item(Instruction::Prepare) => prepare(),
        Received::Item(Instruction::SendBytes(b)) => command(&b),
        Received::Item(Instruction::Idle(ms)) => {
            let r = vec![Step::Sleep(ms)];
            assert(r@ =~= seq![Step::Sleep(ms)]);
            r
        },
        Received::Item(Instruction::Empty) => {
            let r: Vec<Step> = Vec::new();
            assert(r@ =~= Seq::<Step>::empty());
            r
        },
        Received::Item(Instruction::Shutdown) => shutdown(),
        Received::Item(Instruction::Halt) | Received::Disconnected => {
            let r = vec![Step::Stop];
            assert(r@ =~= seq![Step::Stop]);
            r
        },
        Received::Nothing => {
            let r = vec![Step::Sleep(SHORT_MS)];
            assert(r@ =~= seq![Step::Sleep(SHORT_MS)]);
            r
        },
    }
}

/// What to do after reading the status byte.
#[derive(PartialEq, Eq, Structural, Debug, Clone, Copy)]
pub enum AckPoll {
    /// The device is on-line.
    Acknowledged,
    /// The device reported an unexpected state: fatal.
    Rejected,
    /// Wait and read again.
    Retry,
    /// The device never answered: fatal.
    GiveUp,
}

/// The decision after read number `attempt` (from zero) of the status byte
/// returned `reply` (`None` when nothing was read).
pub fn ack_poll(attempt: u32, reply: Option<u8>) -> (r: AckPoll)
    ensures
        reply == Some(STATUS_OK) ==> r == AckPoll::Acknowledged,
        reply == Some(STATUS_UNEXPECTED) ==> r == AckPoll::Rejected,
        reply != Some(STATUS_OK) && reply != Some(STATUS_UNEXPECTED) ==> r == if attempt + 1
            >= ACK_ATTEMPTS {
            AckPoll::GiveUp
        } else {
            AckPoll::Retry
        },
{
    match reply {
        Some(b) if b == STATUS_OK => AckPoll::Acknowledged,
        Some(b) if b == STATUS_UNEXPECTED => AckPoll::Rejected,
        _ => if attempt >= ACK_ATTEMPTS - 1 {
            AckPoll::GiveUp
        } else {
            AckPoll::Retry
        },
    }
}

/// What to do after reading the CTS line.
#[derive(PartialEq, Eq, Structural, Debug, Clone, Copy)]
pub enum CtsPoll {
    /// The device is ready for the next byte: pause, then go on.
    Clear,
    /// Pause and read again, with this many reads left.
    Retry(u32),
    /// The device never became ready: fatal.
    TimedOut,
}

/// The decision after reading the CTS line as `asserted`, with `remaining`
/// reads left including this one (the first read has `CTS_ATTEMPTS`).
pub fn cts_poll(remaining: u32, asserted: bool) -> (r: CtsPoll)
    ensures
        asserted ==> r == CtsPoll::Clear,
        !asserted && remaining <= 1 ==> r == CtsPoll::TimedOut,
        !asserted && remaining > 1 ==> r == CtsPoll::Retry((remaining - 1) as u32),
{
    if asserted {
        CtsPoll::Clear
    } else if remaining <= 1 {
        CtsPoll::TimedOut
    } else {
        CtsPoll::Retry(remaining - 1)
    }
}

} // verus!
