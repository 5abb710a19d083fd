use vstd::prelude::*;
use crate::machine::{PrintingDirection, Settings};
use crate::motion::{
    self, motion_result, space_jump_left, space_jump_right, spec_move_absolute, steps_fit,
    MotionError,
};
use crate::position::{fits_i32, Position};
use crate::resolution::Resolution;
use crate::symbol::{ActionMapping, Symbol, SymbolView};
use crate::times::{LONG_MS, SHORT_MS, TINY_MS};

verus! {

/// One primitive directive for the device driver.
#[derive(PartialEq, Eq, Debug, Clone, Copy)]
pub enum Instruction {
    /// Run the start-up handshake.
    Prepare,
    /// Pause for the given number of milliseconds.
    Idle(u64),
    /// Transmit exactly two bytes, most significant first.
    SendBytes([u8; 2]),
    /// Do nothing.
    Empty,
    /// Power the device down gracefully and stop the driver.
    Shutdown,
    /// Stop the driver at once.
    Halt,
}

/// The two-byte frame `[b1, b2]`.
pub open spec fn frame(b1: u8, b2: u8) -> Instruction {
    Instruction::SendBytes([b1, b2])
}

impl Instruction {
    pub fn bytes(b1: u8, b2: u8) -> (r: Self)
        ensures
            r == frame(b1, b2),
    {
        Instruction::SendBytes([b1, b2])
    }

    pub fn wait_short() -> (r: Self)
        ensures
            r == Instruction::Idle(SHORT_MS),
    {
        Instruction::Idle(SHORT_MS)
    }

    pub fn wait_tiny() -> (r: Self)
        ensures
            r == Instruction::Idle(TINY_MS),
    {
        Instruction::Idle(TINY_MS)
    }

    pub fn wait_long() -> (r: Self)
        ensures
            r == Instruction::Idle(LONG_MS),
    {
        Instruction::Idle(LONG_MS)
    }
}

/// The big-endian frame of a sixteen-bit command word.
pub open spec fn word_frame(value: u16) -> Instruction {
    frame((value / 256) as u8, (value % 256) as u8)
}

impl From<u16> for Instruction {
    fn from(value: u16) -> (r: Self)
        ensures
            r == word_frame(value),
    {
        let hi = (value >> 8) as u8;
        let lo = (value & 0xFF) as u8;
        assert(value >> 8 == value / 256 && value & 0xFF == value % 256) by (bit_vector);
        Instruction::SendBytes([hi, lo])
    }
}

impl vstd::std_specs::convert::FromSpecImpl<u16> for Instruction {
    open spec fn obeys_from_spec() -> bool {
        true
    }

    open spec fn from_spec(value: u16) -> Instruction {
        word_frame(value)
    }
}

/// The coordinates, over the integers, where the carriage stands after `sym`
/// is handled at `pos`, with `base` as the home position.
pub open spec fn action_target(
    sym: SymbolView,
    dir: PrintingDirection,
    res: Resolution,
    base: Position,
    pos: Position,
) -> (int, int) {
    match sym.act {
        ActionMapping::Print => (pos.x + dir.sign() * (res.x * sym.spec_x_increment()), pos.y as int),
        ActionMapping::Whitespace => (pos.x + res.x * (sym.repeat_count() * dir.sign()), pos.y as int),
        ActionMapping::CarriageReturn => (base.x as int, pos.y + res.y * sym.repeat_count()),
    }
}

/// Whether every coordinate computed while handling `sym` at `pos` fits in `i32`.
pub open spec fn action_fits(
    sym: SymbolView,
    dir: PrintingDirection,
    res: Resolution,
    base: Position,
    pos: Position,
) -> bool {
    let t = action_target(sym, dir, res, base, pos);
    match sym.act {
        ActionMapping::Print => {
            &&& sym.signs.len() <= i32::MAX
            &&& sym.signs.len() * sym.repeat_count() <= i32::MAX
            &&& fits_i32(res.x * sym.spec_x_increment())
            &&& fits_i32(t.0)
        },
        ActionMapping::Whitespace => {
            &&& sym.repeat_count() <= i32::MAX
            &&& fits_i32(res.x * (sym.repeat_count() * dir.sign()))
            &&& fits_i32(t.0)
        },
        ActionMapping::CarriageReturn => {
            &&& sym.repeat_count() <= i32::MAX
            &&& fits_i32(res.y * sym.repeat_count())
            &&& fits_i32(t.1)
        },
    }
}

/// The position after handling `sym` at `pos`.
pub open spec fn action_position(
    sym: SymbolView,
    dir: PrintingDirection,
    res: Resolution,
    base: Position,
    pos: Position,
) -> Position {
    let t = action_target(sym, dir, res, base, pos);
    Position { x: t.0 as i32, y: t.1 as i32 }
}

/// Whether the motion from `old` to `new` fits in motion commands.
pub open spec fn move_fits(old: Position, new: Position) -> bool {
    steps_fit(new.x - old.x) && steps_fit(new.y - old.y)
}

/// The instructions for `sym` when the carriage goes from `old` to `new`, and
/// whether they can be expressed: strikes for a printing symbol, the built-in
/// space for a single blank, a coordinate jump for a run of blanks or line breaks.
pub open spec fn action_plan(
    sym: SymbolView,
    dir: PrintingDirection,
    old: Position,
    new: Position,
) -> (bool, Seq<Instruction>) {
    match sym.act {
        ActionMapping::Print => (true, sym.spec_instructions(dir)),
        ActionMapping::Whitespace => if sym.repeat_count() == 1 {
            match dir {
                PrintingDirection::Right => (true, seq![frame(0b1000_0011, 0)]),
                PrintingDirection::Left => (true, seq![frame(0b1000_0100, 0)]),
            }
        } else {
            (move_fits(old, new), spec_move_absolute(old, new))
        },
        ActionMapping::CarriageReturn => (move_fits(old, new), spec_move_absolute(old, new)),
    }
}

/// A symbol to be handled under given settings and resolution.
pub struct Action {
    pub symbol: Symbol,
    pub settings: Settings,
    pub resolution: Resolution,
}

impl Action {
    pub fn new(symbol: Symbol, settings: Settings, resolution: Resolution) -> (r: Self)
        ensures
            r.symbol == symbol,
            r.settings == settings,
            r.resolution == resolution,
    {
        Action { symbol, settings, resolution }
    }

    /// How many characters the symbol stands for.
    pub fn multi_factor(&self) -> (r: usize)
        ensures
            r == self.symbol@.repeat_count(),
    {
        match self.symbol.repeat_times {
            Some(n) => n,
            None => 1,
        }
    }

    /// Whether the symbol stands for one character only.
    pub fn is_single(&self) -> (r: bool)
        ensures
            r == (self.symbol@.repeat_count() == 1),
    {
        self.multi_factor() == 1
    }

    /// The instructions of a blank: the built-in space (or backspace, when
    /// printing leftwards) for one blank, a coordinate jump for a run.
    pub fn whitespace_instructions(&self, old_position: &Position, new_position: &Position) -> (r:
        Result<Vec<Instruction>, MotionError>)
        requires
            self.symbol.act == ActionMapping::Whitespace,
        ensures
            ({
                let plan = action_plan(
                    self.symbol@,
                    self.settings.direction,
                    *old_position,
                    *new_position,
                );
                motion_result(plan.0, plan.1, r)
            }),
    {
        if self.is_single() {
            match self.settings.direction {
                PrintingDirection::Right => Ok(space_jump_right()),
                PrintingDirection::Left => Ok(space_jump_left()),
            }
        } else {
            motion::move_absolute(old_position, new_position)
        }
    }

    /// Whether handling the symbol at `position` keeps every coordinate within `i32`.
    pub fn fits(&self, base_position: &Position, position: &Position) -> (r: bool)
        ensures
            r == action_fits(
                self.symbol@,
                self.settings.direction,
                self.resolution,
                *base_position,
                *position,
            ),
    {
        let res = self.resolution;
        let rep = self.multi_factor();
        let max = i32::MAX as i64;
        let min = i32::MIN as i64;
        match self.symbol.act {
            ActionMapping::Print => {
                let n = self.symbol.signs.len();
                if n > i32::MAX as usize {
                    return false;
                }
                assert((n as int) * (rep as int) < 0x1_0000_0000_0000_0000_0000_0000_0000_0000)
                    by (nonlinear_arith)
                    requires
                        n < 0x1_0000_0000_0000_0000,
                        rep < 0x1_0000_0000_0000_0000,
                        n >= 0,
                        rep >= 0,
                ;
                if (n as u128) * (rep as u128) > i32::MAX as u128 {
                    return false;
                }
                let inc = self.symbol.x_positions_increment() as i64;
                assert(-0x8000_0000_0000_0000 < (res.x as int) * (inc as int) < 0x8000_0000_0000_0000)
                    by (nonlinear_arith)
                    requires
                        i32::MIN <= res.x <= i32::MAX,
                        i32::MIN <= inc <= i32::MAX,
                ;
                let dx = res.x as i64 * inc;
                if dx < min || dx > max {
                    return false;
                }
                let tx = match self.settings.direction {
                    PrintingDirection::Right => position.x as i64 + dx,
                    PrintingDirection::Left => position.x as i64 - dx,
                };
                min <= tx && tx <= max
            },
            ActionMapping::Whitespace => {
                if rep > i32::MAX as usize {
                    return false;
                }
                let cols = match self.settings.direction {
                    PrintingDirection::Right => rep as i64,
                    PrintingDirection::Left => -(rep as i64),
                };
                assert(-0x8000_0000_0000_0000 < (res.x as int) * (cols as int) < 0x8000_0000_0000_0000)
                    by (nonlinear_arith)
                    requires
                        i32::MIN <= res.x <= i32::MAX,
                        -(i32::MAX as int) <= cols <= i32::MAX,
                ;
                let dx = res.x as i64 * cols;
                if dx < min || dx > max {
                    return false;
                }
                let tx = position.x as i64 + dx;
                min <= tx && tx <= max
            },
            ActionMapping::CarriageReturn => {
                if rep > i32::MAX as usize {
                    return false;
                }
                assert(-0x8000_0000_0000_0000 < (res.y as int) * (rep as int) < 0x8000_0000_0000_0000)
                    by (nonlinear_arith)
                    requires
                        i32::MIN <= res.y <= i32::MAX,
                        0 <= rep <= i32::MAX,
                ;
                let dy = res.y as i64 * rep as i64;
                if dy < min || dy > max {
                    return false;
                }
                let ty = position.y as i64 + dy;
                min <= ty && ty <= max
            },
        }
    }

    /// Move `position` to where the carriage stands once the symbol is handled.
    pub fn update_position(&self, base_position: &Position, position: &mut Position)
        requires
            action_fits(
                self.symbol@,
                self.settings.direction,
                self.resolution,
                *base_position,
                *old(position),
            ),
        ensures
            *final(position) == action_position(
                self.symbol@,
                self.settings.direction,
                self.resolution,
                *base_position,
                *old(position),
            ),
    {
        let res = self.resolution;
        let pos = match self.symbol.act {
            ActionMapping::Print => {
                let inc = self.symbol.x_positions_increment();
                match self.settings.direction {
                    PrintingDirection::Right => position.increment_x(inc, res),
                    PrintingDirection::Left => position.decrement_x(inc, res),
                }
            },
            ActionMapping::Whitespace => {
                let factor = self.multi_factor() as i32;
                let columns = match self.settings.direction {
                    PrintingDirection::Right => factor,
                    PrintingDirection::Left => -factor,
                };
                assert(columns == self.symbol@.repeat_count() * self.settings.direction.sign());
                position.increment_x(columns, res)
            },
            ActionMapping::CarriageReturn => {
                position.cr_multiple(base_position, self.multi_factor() as i32, res)
            },
        };
        position.jump(&pos);
    }

    /// Generates the instructions for the symbol, taking the current position as
    /// the reference point, and moves the current position to where the carriage
    /// stands after them.
    pub fn instructions(&self, base_position: &Position, current_position: &mut Position) -> (r:
        Result<Vec<Instruction>, MotionError>)
        requires
            action_fits(
                self.symbol@,
                self.settings.direction,
                self.resolution,
                *base_position,
                *old(current_position),
            ),
        ensures
            *final(current_position) == action_position(
                self.symbol@,
                self.settings.direction,
                self.resolution,
                *base_position,
                *old(current_position),
            ),
            ({
                let plan = action_plan(
                    self.symbol@,
                    self.settings.direction,
                    *old(current_position),
                    *final(current_position),
                );
                motion_result(plan.0, plan.1, r)
            }),
    {
        let old_position = *current_position;
        self.update_position(base_position, current_position);
        match self.symbol.act {
            ActionMapping::Print => Ok(self.symbol.instructions(self.settings.direction)),
            ActionMapping::Whitespace => self.whitespace_instructions(&old_position, current_position),
            ActionMapping::CarriageReturn => motion::move_absolute(&old_position, current_position),
        }
    }
}

} // verus!
