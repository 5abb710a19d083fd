use vstd::prelude::*;
use crate::database::Db;
use crate::motion::{move_carriage, motion_result, spec_move_carriage, steps_fit, MotionError};
use crate::position::Position;
use crate::printing::{action_fits, action_plan, action_position, Action, Instruction};
use crate::resolution::{Resolution, DEFAULT_X_RESOLUTION, DEFAULT_Y_RESOLUTION};
use crate::symbol::SymbolView;

verus! {

/// The way the carriage travels while printing.
#[derive(PartialEq, Eq, Structural, Debug, Clone, Copy)]
pub enum PrintingDirection {
    Right,
    Left,
}

impl PrintingDirection {
    /// `+1` for rightward printing, `-1` for leftward printing.
    pub open spec fn sign(self) -> int {
        match self {
            PrintingDirection::Right => 1,
            PrintingDirection::Left => -1,
        }
    }
}

impl Default for PrintingDirection {
    fn default() -> (r: Self)
        ensures
            r == PrintingDirection::Right,
    {
        PrintingDirection::Right
    }
}

impl From<PrintingDirection> for i32 {
    fn from(direction: PrintingDirection) -> (r: i32)
        ensures
            r as int == direction.sign(),
    {
        match direction {
            PrintingDirection::Right => 1,
            PrintingDirection::Left => -1,
        }
    }
}

impl vstd::std_specs::convert::FromSpecImpl<PrintingDirection> for i32 {
    open spec fn obeys_from_spec() -> bool {
        true
    }

    open spec fn from_spec(direction: PrintingDirection) -> i32 {
        direction.sign() as i32
    }
}

/// Per-session printing options.
#[derive(PartialEq, Eq, Structural, Debug, Clone, Copy)]
pub struct Settings {
    pub direction: PrintingDirection,
}

impl Default for Settings {
    fn default() -> (r: Self)
        ensures
            r.direction == PrintingDirection::Right,
    {
        Settings { direction: PrintingDirection::Right }
    }
}

/// Why a text cannot be turned into instructions.
#[derive(PartialEq, Eq, Structural, Debug, Clone, Copy)]
pub enum PrintError {
    /// A coordinate of the carriage would leave the range of `i32`.
    PositionOutOfRange,
    /// A jump is too long for one motion command.
    StepsOutOfRange,
}

/// The final position and the instructions for `symbols`, handled in order
/// from `pos`, or the first error met.
pub open spec fn compile(
    symbols: Seq<SymbolView>,
    settings: Settings,
    res: Resolution,
    base: Position,
    pos: Position,
) -> Result<(Position, Seq<Instruction>), PrintError>
    decreases symbols.len(),
{
    if symbols.len() == 0 {
        Ok((pos, Seq::empty()))
    } else {
        let s = symbols[0];
        let dir = settings.direction;
        if !action_fits(s, dir, res, base, pos) {
            Err(PrintError::PositionOutOfRange)
        } else {
            let next = action_position(s, dir, res, base, pos);
            let plan = action_plan(s, dir, pos, next);
            if !plan.0 {
                Err(PrintError::StepsOutOfRange)
            } else {
                prepend(plan.1, compile(symbols.drop_first(), settings, res, base, next))
            }
        }
    }
}

/// `front` followed by the instructions of `rest`, if `rest` succeeded.
pub open spec fn prepend(
    front: Seq<Instruction>,
    rest: Result<(Position, Seq<Instruction>), PrintError>,
) -> Result<(Position, Seq<Instruction>), PrintError> {
    match rest {
        Ok((p, s)) => Ok((p, front + s)),
        Err(e) => Err(e),
    }
}

/// The result of printing matches the compiled outcome: on success the same
/// instructions and final position, otherwise the same error.
pub open spec fn print_outcome(
    expected: Result<(Position, Seq<Instruction>), PrintError>,
    r: Result<Vec<Instruction>, PrintError>,
    pos: Position,
) -> bool {
    match expected {
        Ok((p, s)) => r matches Ok(v) && v@ == s && pos == p,
        Err(e) => r == Err::<Vec<Instruction>, PrintError>(e),
    }
}

proof fn lemma_prepend_twice(
    a: Seq<Instruction>,
    b: Seq<Instruction>,
    rest: Result<(Position, Seq<Instruction>), PrintError>,
)
    ensures
        prepend(a, prepend(b, rest)) == prepend(a + b, rest),
{
    if let Ok((p, s)) = rest {
        assert(a + (b + s) =~= (a + b) + s);
    }
}

/// The machine as the text compiler sees it: where the carriage is, where its
/// home is, and how it prints.
pub struct Machine {
    pub base_pos: Position,
    pub pos: Position,
    pub settings: Settings,
    pub resolution: Resolution,
}

impl Machine {
    /// A machine at the paper origin with default settings and resolution.
    pub fn new() -> (r: Self)
        ensures
            r.pos == (Position { x: 0, y: 0 }),
            r.base_pos == (Position { x: 0, y: 0 }),
            r.settings.direction == PrintingDirection::Right,
            r.resolution == (Resolution { x: DEFAULT_X_RESOLUTION, y: DEFAULT_Y_RESOLUTION }),
    {
        let pos = Position::default();
        Machine {
            base_pos: pos,
            pos,
            settings: Settings::default(),
            resolution: Resolution::default(),
        }
    }

    pub fn current_position(&self) -> (r: Position)
        ensures
            r == self.pos,
    {
        self.pos
    }

    /// The instructions that power the machine down.
    pub fn shutdown(&mut self) -> (r: Vec<Instruction>)
        ensures
            r@ == seq![Instruction::Shutdown],
            *final(self) == *old(self),
    {
        let r = vec![Instruction::Shutdown];
        assert(r@ =~= seq![Instruction::Shutdown]);
        r
    }

    /// A no-op instruction, used to flush the device queue.
    pub fn send_empty_instruction(&mut self) -> (r: Vec<Instruction>)
        ensures
            r@ == seq![Instruction::Empty],
            *final(self) == *old(self),
    {
        let r = vec![Instruction::Empty];
        assert(r@ =~= seq![Instruction::Empty]);
        r
    }

    /// Shift the carriage by `value` micro-units without moving the paper
    /// coordinates: the new carriage place becomes the margin that text starts from.
    pub fn offset(&mut self, value: i32) -> (r: Result<Vec<Instruction>, MotionError>)
        ensures
            motion_result(steps_fit(value as int), spec_move_carriage(value as int), r),
            *final(self) == *old(self),
    {
        move_carriage(value)
    }

    /// The instructions that print `input` with the wheel `db`, moving the
    /// current position to where the carriage stands after them.
    pub fn print(&mut self, input: &str, db: &Db) -> (r: Result<Vec<Instruction>, PrintError>)
        ensures
            final(self).base_pos == old(self).base_pos,
            final(self).settings == old(self).settings,
            final(self).resolution == old(self).resolution,
            print_outcome(
                compile(
                    db.spec_printables(input@),
                    old(self).settings,
                    old(self).resolution,
                    old(self).base_pos,
                    old(self).pos,
                ),
                r,
                final(self).pos,
            ),
    {
        let symbols = db.printables(input);
        let ghost syms = db.spec_printables(input@);
        let ghost goal = compile(syms, self.settings, self.resolution, self.base_pos, self.pos);
        let mut out: Vec<Instruction> = Vec::new();
        let mut i: usize = 0;
        assert(syms.skip(0) =~= syms);
        proof {
            if let Ok((p, s)) = goal {
                assert(Seq::<Instruction>::empty() + s =~= s);
            }
        }
        while i < symbols.len()
            invariant
                0 <= i <= symbols@.len(),
                symbols@.len() == syms.len(),
                forall|k: int| 0 <= k < symbols@.len() ==> (#[trigger] symbols@[k])@ == syms[k],
                prepend(
                    out@,
                    compile(syms.skip(i as int), self.settings, self.resolution, self.base_pos, self.pos),
                ) == goal,
                syms == db.spec_printables(input@),
                goal == compile(
                    syms,
                    old(self).settings,
                    old(self).resolution,
                    old(self).base_pos,
                    old(self).pos,
                ),
                self.base_pos == old(self).base_pos,
                self.settings == old(self).settings,
                self.resolution == old(self).resolution,
            decreases symbols@.len() - i,
        {
            let ghost rest = syms.skip(i as int);
            assert(rest[0] == syms[i as int]);
            assert(rest.drop_first() =~= syms.skip(i + 1));
            let action = Action::new(symbols[i].copy(), self.settings, self.resolution);
            assert(action.symbol@ == rest[0]);
            if !action.fits(&self.base_pos, &self.pos) {
                assert(compile(rest, self.settings, self.resolution, self.base_pos, self.pos) == Err::<
                    (Position, Seq<Instruction>),
                    PrintError,
                >(PrintError::PositionOutOfRange));
                return Err(PrintError::PositionOutOfRange);
            }
            let ghost before = self.pos;
            let base = self.base_pos;
            let step = action.instructions(&base, &mut self.pos);
            let mut items = match step {
                Ok(v) => v,
                Err(_) => {
                    assert(compile(rest, self.settings, self.resolution, self.base_pos, before)
                        == Err::<(Position, Seq<Instruction>), PrintError>(
                        PrintError::StepsOutOfRange,
                    ));
                    return Err(PrintError::StepsOutOfRange);
                },
            };
            proof {
                lemma_prepend_twice(
                    out@,
                    items@,
                    compile(syms.skip(i + 1), self.settings, self.resolution, self.base_pos, self.pos),
                );
            }
            out.append(&mut items);
            i = i + 1;
        }
        proof {
            if let Ok((p, s)) = goal {
                assert(out@ + Seq::<Instruction>::empty() =~= out@);
            }
        }
        Ok(out)
    }
}

} // verus!
