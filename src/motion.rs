use vstd::prelude::*;
use crate::position::Position;
use crate::printing::{frame, word_frame, Instruction};
use crate::times::{LONG_MS, SHORT_MS};

verus! {

/// Largest step count a motion command can carry (twelve bits).
pub const MAX_STEPS: i32 = 0x0FFF;

/// Command word of a rightward carriage motion, before the step count.
pub const CARRIAGE_FORWARD: u16 = 0b1100_0000_0000_0000;

/// Command word of a leftward carriage motion, before the step count.
pub const CARRIAGE_BACKWARD: u16 = 0b1110_0000_0000_0000;

/// Command word of a downward paper feed, before the step count.
pub const ROLL_FORWARD: u16 = 0b1101_0000_0000_0000;

/// Command word of an upward paper feed, before the step count.
pub const ROLL_BACKWARD: u16 = 0b1111_0000_0000_0000;

/// Why a motion cannot be expressed as device commands.
#[derive(PartialEq, Eq, Structural, Debug, Clone, Copy)]
pub enum MotionError {
    /// The distance does not fit in the twelve-bit step count of a motion command.
    StepsOutOfRange,
}

/// Whether a distance fits in one motion command.
pub open spec fn steps_fit(delta: int) -> bool {
    -(MAX_STEPS as int) <= delta <= MAX_STEPS as int
}

/// A motion command framed by the settle delay before it and the completion delay after it.
pub open spec fn wrapped_motion(word: u16) -> Seq<Instruction> {
    seq![Instruction::Idle(SHORT_MS), word_frame(word), Instruction::Idle(LONG_MS)]
}

/// The instructions that move one axis by `delta` steps, given the command
/// words of the two directions; no motion is a single `Empty`.
pub open spec fn axis_motion(delta: int, forward: u16, backward: u16) -> Seq<Instruction> {
    if delta > 0 {
        wrapped_motion((forward + delta) as u16)
    } else if delta < 0 {
        wrapped_motion((backward - delta) as u16)
    } else {
        seq![Instruction::Empty]
    }
}

pub open spec fn spec_move_carriage(delta: int) -> Seq<Instruction> {
    axis_motion(delta, CARRIAGE_FORWARD, CARRIAGE_BACKWARD)
}

pub open spec fn spec_move_paper(delta: int) -> Seq<Instruction> {
    axis_motion(delta, ROLL_FORWARD, ROLL_BACKWARD)
}

/// What a motion gives: the instructions `motion` when every distance `fits`,
/// the out-of-range error otherwise.
pub open spec fn motion_result(
    fits: bool,
    motion: Seq<Instruction>,
    r: Result<Vec<Instruction>, MotionError>,
) -> bool {
    if fits {
        r matches Ok(v) && v@ == motion
    } else {
        r == Err::<Vec<Instruction>, MotionError>(MotionError::StepsOutOfRange)
    }
}

/// Command word plus a step count of at most twelve bits.
proof fn lemma_or_steps(word: u16, steps: u16)
    requires
        word % 4096 == 0,
        steps <= 0x0FFF,
    ensures
        word | steps == word + steps,
{
    assert(word | steps == word + steps) by (bit_vector)
        requires
            word % 4096 == 0,
            steps <= 0x0FFF,
    ;
}

fn wrap_motion(value: u16) -> (r: Vec<Instruction>)
    ensures
        r@ == wrapped_motion(value),
{
    let cmd = Instruction::from(value);
    let r = vec![Instruction::Idle(SHORT_MS), cmd, Instruction::Idle(LONG_MS)];
    assert(r@ =~= wrapped_motion(value));
    r
}

fn with_steps(word: u16, steps: u16) -> (r: Vec<Instruction>)
    requires
        word % 4096 == 0,
        steps <= 0x0FFF,
    ensures
        r@ == wrapped_motion((word + steps) as u16),
{
    proof {
        lemma_or_steps(word, steps);
    }
    wrap_motion(word | steps)
}

fn roll_forward(steps: u16) -> (r: Vec<Instruction>)
    requires
        steps <= 0x0FFF,
    ensures
        r@ == wrapped_motion((ROLL_FORWARD + steps) as u16),
{
    with_steps(ROLL_FORWARD, steps)
}

fn roll_backward(steps: u16) -> (r: Vec<Instruction>)
    requires
        steps <= 0x0FFF,
    ensures
        r@ == wrapped_motion((ROLL_BACKWARD + steps) as u16),
{
    with_steps(ROLL_BACKWARD, steps)
}

fn carriage_forward(steps: u16) -> (r: Vec<Instruction>)
    requires
        steps <= 0x0FFF,
    ensures
        r@ == wrapped_motion((CARRIAGE_FORWARD + steps) as u16),
{
    with_steps(CARRIAGE_FORWARD, steps)
}

fn carriage_backward(steps: u16) -> (r: Vec<Instruction>)
    requires
        steps <= 0x0FFF,
    ensures
        r@ == wrapped_motion((CARRIAGE_BACKWARD + steps) as u16),
{
    with_steps(CARRIAGE_BACKWARD, steps)
}

/// The step count of a distance, if it fits in a motion command.
fn step_count(increment: i32) -> (r: Option<u16>)
    ensures
        steps_fit(increment as int) <==> r.is_some(),
        r matches Some(s) ==> s as int == if increment < 0 { -increment } else { increment as int },
{
    if increment < -MAX_STEPS || increment > MAX_STEPS {
        None
    } else if increment < 0 {
        Some((-increment) as u16)
    } else {
        Some(increment as u16)
    }
}

/// Move the carriage by `increment` micro-units: right when positive, left when negative.
pub fn move_carriage(increment: i32) -> (r: Result<Vec<Instruction>, MotionError>)
    ensures
        motion_result(steps_fit(increment as int), spec_move_carriage(increment as int), r),
{
    let value = match step_count(increment) {
        Some(v) => v,
        None => return Err(MotionError::StepsOutOfRange),
    };
    if increment < 0 {
        return Ok(carriage_backward(value));
    }
    if increment > 0 {
        return Ok(carriage_forward(value));
    }
    let r = vec![Instruction::Empty];
    assert(r@ =~= seq![Instruction::Empty]);
    Ok(r)
}

/// Roll the paper by `increment` micro-units: down when positive, up when negative.
pub fn move_paper(increment: i32) -> (r: Result<Vec<Instruction>, MotionError>)
    ensures
        motion_result(steps_fit(increment as int), spec_move_paper(increment as int), r),
{
    let value = match step_count(increment) {
        Some(v) => v,
        None => return Err(MotionError::StepsOutOfRange),
    };
    if increment < 0 {
        return Ok(roll_backward(value));
    }
    if increment > 0 {
        return Ok(roll_forward(value));
    }
    let r = vec![Instruction::Empty];
    assert(r@ =~= seq![Instruction::Empty]);
    Ok(r)
}

/// The instructions of a relative motion: the carriage first, then the paper.
pub open spec fn spec_move_relative(x: int, y: int) -> Seq<Instruction> {
    spec_move_carriage(x) + spec_move_paper(y)
}

/// Move by `x` micro-units horizontally, then `y` vertically.
pub fn move_relative(x: i32, y: i32) -> (r: Result<Vec<Instruction>, MotionError>)
    ensures
        motion_result(
            steps_fit(x as int) && steps_fit(y as int),
            spec_move_relative(x as int, y as int),
            r,
        ),
{
    let mut items = move_carriage(x)?;
    let mut paper = move_paper(y)?;
    items.append(&mut paper);
    Ok(items)
}

/// The instructions that move from `actual` to `target`.
pub open spec fn spec_move_absolute(actual: Position, target: Position) -> Seq<Instruction> {
    spec_move_relative(target.x - actual.x, target.y - actual.y)
}

/// A distance between two coordinates, if it fits in `i32`.
fn distance(from: i32, to: i32) -> (r: Option<i32>)
    ensures
        r matches Some(d) ==> d == to - from,
        r.is_none() ==> !steps_fit(to - from),
{
    let d = to as i64 - from as i64;
    if d < i32::MIN as i64 || d > i32::MAX as i64 {
        None
    } else {
        Some(d as i32)
    }
}

/// Move from `actual` to `target`.
pub fn move_absolute(actual: &Position, target: &Position) -> (r: Result<
    Vec<Instruction>,
    MotionError,
>)
    ensures
        motion_result(
            steps_fit(target.x - actual.x) && steps_fit(target.y - actual.y),
            spec_move_absolute(*actual, *target),
            r,
        ),
{
    let x = match distance(actual.x, target.x) {
        Some(d) => d,
        None => return Err(MotionError::StepsOutOfRange),
    };
    let y = match distance(actual.y, target.y) {
        Some(d) => d,
        None => return Err(MotionError::StepsOutOfRange),
    };
    move_relative(x, y)
}

/// Backspace: one column to the left.
pub fn space_jump_left() -> (r: Vec<Instruction>)
    ensures
        r@ == seq![frame(0b1000_0100, 0)],
{
    let r = vec![Instruction::bytes(0b1000_0100, 0b0000_0000)];
    assert(r@ =~= seq![frame(0b1000_0100, 0)]);
    r
}

/// Space: one column to the right.
pub fn space_jump_right() -> (r: Vec<Instruction>)
    ensures
        r@ == seq![frame(0b1000_0011, 0)],
{
    let r = vec![Instruction::bytes(0b1000_0011, 0b0000_0000)];
    assert(r@ =~= seq![frame(0b1000_0011, 0)]);
    r
}

/// The distance `(dx, dy)` that a carriage or paper motion command carries;
/// any other instruction carries none.
pub open spec fn motion_steps(i: Instruction) -> (int, int) {
    match i {
        Instruction::SendBytes(b) => {
            let op = b[0] / 16;
            let steps = (b[0] % 16) * 256 + b[1];
            if op == 0xC {
                (steps, 0)
            } else if op == 0xE {
                (-steps, 0)
            } else if op == 0xD {
                (0, steps)
            } else if op == 0xF {
                (0, -steps)
            } else {
                (0, 0)
            }
        },
        _ => (0, 0),
    }
}

/// The total distance that the motion commands of `s` carry.
pub open spec fn total_motion(s: Seq<Instruction>) -> (int, int)
    decreases s.len(),
{
    if s.len() == 0 {
        (0, 0)
    } else {
        let head = total_motion(s.drop_last());
        let tail = motion_steps(s.last());
        (head.0 + tail.0, head.1 + tail.1)
    }
}

proof fn lemma_total_motion_append(a: Seq<Instruction>, b: Seq<Instruction>)
    ensures
        total_motion(a + b).0 == total_motion(a).0 + total_motion(b).0,
        total_motion(a + b).1 == total_motion(a).1 + total_motion(b).1,
    decreases b.len(),
{
    if b.len() > 0 {
        assert((a + b).drop_last() =~= a + b.drop_last());
        lemma_total_motion_append(a, b.drop_last());
    } else {
        assert(a + b =~= a);
    }
}

proof fn lemma_axis_motion(delta: int, forward: u16, backward: u16)
    requires
        steps_fit(delta),
        forward % 4096 == 0,
        backward % 4096 == 0,
    ensures
        delta > 0 ==> total_motion(axis_motion(delta, forward, backward)) == motion_steps(
            word_frame((forward + delta) as u16),
        ),
        delta < 0 ==> total_motion(axis_motion(delta, forward, backward)) == motion_steps(
            word_frame((backward - delta) as u16),
        ),
        delta == 0 ==> total_motion(axis_motion(delta, forward, backward)) == (0int, 0int),
{
    reveal_with_fuel(total_motion, 4);
}

/// After the commands of `move_absolute(actual, target)` the carriage and the
/// paper have moved by exactly the distance from `actual` to `target`.
pub proof fn lemma_move_absolute_reaches_target(actual: Position, target: Position)
    requires
        steps_fit(target.x - actual.x),
        steps_fit(target.y - actual.y),
    ensures
        actual.x + total_motion(spec_move_absolute(actual, target)).0 == target.x,
        actual.y + total_motion(spec_move_absolute(actual, target)).1 == target.y,
{
    let dx = target.x - actual.x;
    let dy = target.y - actual.y;
    lemma_total_motion_append(spec_move_carriage(dx), spec_move_paper(dy));
    lemma_axis_motion(dx, CARRIAGE_FORWARD, CARRIAGE_BACKWARD);
    lemma_axis_motion(dy, ROLL_FORWARD, ROLL_BACKWARD);
}

} // verus!
