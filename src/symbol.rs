use vstd::prelude::*;
use crate::impression::Impression;
use crate::machine::PrintingDirection;
use crate::printing::Instruction;
use crate::sign::Sign;

verus! {

/// What the machine does for a symbol.
#[derive(PartialEq, Eq, Structural, Debug, Clone, Copy)]
pub enum ActionMapping {
    /// Strike one or more petals.
    Print,
    /// Advance the carriage without printing.
    Whitespace,
    /// Return the carriage to the home column and feed the paper.
    CarriageReturn,
}

impl Default for ActionMapping {
    fn default() -> (r: Self)
        ensures
            r == ActionMapping::Print,
    {
        ActionMapping::Print
    }
}

/// What the carriage does once a petal has been struck.
#[derive(PartialEq, Eq, Structural, Debug, Clone, Copy)]
pub enum AfterSymbolPrinted {
    /// Move one column right (bits 7 and 6 are `10`).
    MoveRight,
    /// Move one column left (bits 7 and 6 are `11`).
    MoveLeft,
    /// Stay on the column (bits 7 and 6 are `00`).
    HoldOn,
}

impl Default for AfterSymbolPrinted {
    fn default() -> (r: Self)
        ensures
            r == AfterSymbolPrinted::MoveRight,
    {
        AfterSymbolPrinted::MoveRight
    }
}

impl AfterSymbolPrinted {
    pub open spec fn spec_invert(self) -> Self {
        match self {
            AfterSymbolPrinted::MoveRight => AfterSymbolPrinted::MoveLeft,
            AfterSymbolPrinted::MoveLeft => AfterSymbolPrinted::MoveRight,
            AfterSymbolPrinted::HoldOn => AfterSymbolPrinted::HoldOn,
        }
    }

    pub open spec fn spec_with_direction(self, dir: PrintingDirection) -> Self {
        match dir {
            PrintingDirection::Right => self,
            PrintingDirection::Left => self.spec_invert(),
        }
    }

    pub open spec fn spec_value(self) -> int {
        match self {
            AfterSymbolPrinted::MoveRight => 0b1000_0000,
            AfterSymbolPrinted::MoveLeft => 0b1100_0000,
            AfterSymbolPrinted::HoldOn => 0,
        }
    }

    /// Columns the carriage travels after the strike: `+1`, `-1` or `0`.
    pub open spec fn shift(self) -> int {
        match self {
            AfterSymbolPrinted::MoveRight => 1,
            AfterSymbolPrinted::MoveLeft => -1,
            AfterSymbolPrinted::HoldOn => 0,
        }
    }

    /// The opposite motion; holding stays holding.
    pub fn invert(self) -> (r: Self)
        ensures
            r == self.spec_invert(),
    {
        match self {
            AfterSymbolPrinted::MoveRight => AfterSymbolPrinted::MoveLeft,
            AfterSymbolPrinted::MoveLeft => AfterSymbolPrinted::MoveRight,
            AfterSymbolPrinted::HoldOn => self,
        }
    }

    /// The motion as seen when printing in direction `dir`.
    pub fn with_direction(self, dir: PrintingDirection) -> (r: Self)
        ensures
            r == self.spec_with_direction(dir),
    {
        match dir {
            PrintingDirection::Right => self,
            PrintingDirection::Left => self.invert(),
        }
    }

    /// The two high bits of the strike command.
    pub fn value(&self) -> (r: u8)
        ensures
            r as int == self.spec_value(),
    {
        match self {
            AfterSymbolPrinted::MoveRight => 0b1000_0000,
            AfterSymbolPrinted::MoveLeft => 0b1100_0000,
            AfterSymbolPrinted::HoldOn => 0b0000_0000,
        }
    }
}

/// Inverting twice gives back the motion it started from.
pub proof fn lemma_invert_involutive(a: AfterSymbolPrinted)
    ensures
        a.spec_invert().spec_invert() == a,
{
}

/// Printing rightwards keeps the motion; printing leftwards inverts it.
pub proof fn lemma_with_direction(a: AfterSymbolPrinted)
    ensures
        a.spec_with_direction(PrintingDirection::Right) == a,
        a.spec_with_direction(PrintingDirection::Left) == a.spec_invert(),
{
}

/// Sum of the column shifts of `signs`.
pub open spec fn shift_sum(signs: Seq<Sign>) -> int
    decreases signs.len(),
{
    if signs.len() == 0 {
        0
    } else {
        shift_sum(signs.drop_last()) + signs.last().after.shift()
    }
}

/// `s` repeated `n` times.
pub open spec fn repeat_seq<T>(s: Seq<T>, n: nat) -> Seq<T>
    decreases n,
{
    if n == 0 {
        Seq::empty()
    } else {
        repeat_seq(s, (n - 1) as nat) + s
    }
}

/// The petal index of the grave accent.
pub const GRAVE_PETAL: u8 = 72;

/// The petal index of the acute accent.
pub const ACUTE_PETAL: u8 = 14;

/// The accent strike laid over a base letter: mild, then one column right.
pub open spec fn accent_mark(idx: u8) -> Sign {
    Sign { idx, imp: Impression::Mild, after: AfterSymbolPrinted::MoveRight }
}

/// A unit of text: one character and the strikes that print it.
#[derive(PartialEq, Eq, Debug, Clone)]
pub struct Symbol {
    pub signs: Vec<Sign>,
    pub character: char,
    pub act: ActionMapping,
    /// How many equal characters in a row this symbol stands for, when more than one.
    pub repeat_times: Option<usize>,
}

/// The mathematical content of a `Symbol`.
pub struct SymbolView {
    pub signs: Seq<Sign>,
    pub character: char,
    pub act: ActionMapping,
    pub repeat_times: Option<usize>,
}

impl SymbolView {
    /// A printing symbol has strikes, a motion symbol has none, and a repeat
    /// count, when present, is at least two.
    pub open spec fn wf(self) -> bool {
        &&& (self.act == ActionMapping::Print <==> self.signs.len() > 0)
        &&& (self.repeat_times matches Some(n) ==> n >= 2)
    }

    /// How many times the symbol is printed.
    pub open spec fn repeat_count(self) -> nat {
        match self.repeat_times {
            Some(n) => n as nat,
            None => 1,
        }
    }

    /// The strike commands of one copy of the symbol.
    pub open spec fn sign_frames(self, dir: PrintingDirection) -> Seq<Instruction> {
        self.signs.map_values(|s: Sign| s.spec_instruction(dir))
    }

    /// The strike commands of all copies of the symbol.
    pub open spec fn spec_instructions(self, dir: PrintingDirection) -> Seq<Instruction> {
        repeat_seq(self.sign_frames(dir), self.repeat_count())
    }

    /// Columns the carriage travels while the symbol is printed.
    pub open spec fn spec_x_increment(self) -> int {
        shift_sum(self.signs) * self.repeat_count()
    }
}

impl View for Symbol {
    type V = SymbolView;

    open spec fn view(&self) -> SymbolView {
        SymbolView {
            signs: self.signs@,
            character: self.character,
            act: self.act,
            repeat_times: self.repeat_times,
        }
    }
}

impl Symbol {
    pub open spec fn wf(&self) -> bool {
        self@.wf()
    }

    pub open spec fn repeat_count(&self) -> nat {
        self@.repeat_count()
    }

    pub open spec fn sign_frames(&self, dir: PrintingDirection) -> Seq<Instruction> {
        self@.sign_frames(dir)
    }

    pub open spec fn spec_instructions(&self, dir: PrintingDirection) -> Seq<Instruction> {
        self@.spec_instructions(dir)
    }

    pub open spec fn spec_x_increment(&self) -> int {
        self@.spec_x_increment()
    }

    /// An exact copy of the symbol.
    pub fn copy(&self) -> (r: Symbol)
        ensures
            r@ == self@,
    {
        let mut signs: Vec<Sign> = Vec::with_capacity(self.signs.len());
        let mut i: usize = 0;
        while i < self.signs.len()
            invariant
                0 <= i <= self.signs@.len(),
                signs@ == self.signs@.take(i as int),
            decreases self.signs@.len() - i,
        {
            signs.push(self.signs[i]);
            i = i + 1;
            assert(signs@ =~= self.signs@.take(i as int));
        }
        assert(signs@ =~= self.signs@);
        Symbol {
            signs,
            character: self.character,
            act: self.act,
            repeat_times: self.repeat_times,
        }
    }

    /// An empty printing symbol for `character`: add strikes with `petal`.
    pub fn new(character: char) -> (r: Self)
        ensures
            r.character == character,
            r.signs@.len() == 0,
            r.act == ActionMapping::Print,
            r.repeat_times.is_none(),
    {
        Symbol { signs: Vec::with_capacity(2), character, act: ActionMapping::Print, repeat_times: None }
    }

    /// Add a strike of petal `idx`, with normal impression, that moves right.
    pub fn petal(self, idx: u8) -> (r: Self)
        ensures
            r.signs@ == self.signs@.push(
                Sign { idx, imp: Impression::Normal, after: AfterSymbolPrinted::MoveRight },
            ),
            r.character == self.character,
            r.act == self.act,
            r.repeat_times == self.repeat_times,
    {
        let mut this = self;
        let sign = Sign { idx, imp: Impression::Normal, after: AfterSymbolPrinted::MoveRight };
        this.signs.push(sign);
        this
    }

    /// Hold the carriage on the first strike and lay the accent on petal `mark` over it.
    fn accented(self, mark: u8) -> (r: Self)
        requires
            self.signs@.len() > 0,
        ensures
            r.signs@ == self.signs@.update(
                0,
                Sign { after: AfterSymbolPrinted::HoldOn, ..self.signs@[0] },
            ).push(accent_mark(mark)),
            r.character == self.character,
            r.act == self.act,
            r.repeat_times == self.repeat_times,
    {
        let mut this = self;
        let mut sign = this.signs[0];
        sign.after = AfterSymbolPrinted::HoldOn;
        this.signs.set(0, sign);
        let accent = Sign { idx: mark, imp: Impression::Mild, after: AfterSymbolPrinted::MoveRight };
        this.signs.push(accent);
        this
    }

    /// Add a grave accent (è) over the first strike.
    pub fn grave(self) -> (r: Self)
        requires
            self.signs@.len() > 0,
        ensures
            r.signs@ == self.signs@.update(
                0,
                Sign { after: AfterSymbolPrinted::HoldOn, ..self.signs@[0] },
            ).push(accent_mark(GRAVE_PETAL)),
            r.character == self.character,
            r.act == self.act,
            r.repeat_times == self.repeat_times,
    {
        self.accented(GRAVE_PETAL)
    }

    /// Add an acute accent (é) over the first strike.
    pub fn acute(self) -> (r: Self)
        requires
            self.signs@.len() > 0,
        ensures
            r.signs@ == self.signs@.update(
                0,
                Sign { after: AfterSymbolPrinted::HoldOn, ..self.signs@[0] },
            ).push(accent_mark(ACUTE_PETAL)),
            r.character == self.character,
            r.act == self.act,
            r.repeat_times == self.repeat_times,
    {
        self.accented(ACUTE_PETAL)
    }

    /// The blank: no strike, one column of carriage motion.
    pub fn whitespace() -> (r: Self)
        ensures
            r.character == ' ',
            r.signs@.len() == 0,
            r.act == ActionMapping::Whitespace,
            r.repeat_times.is_none(),
            r.wf(),
    {
        let mut item = Self::new(' ');
        item.act = ActionMapping::Whitespace;
        item
    }

    /// The line break: carriage return and line feed.
    pub fn cr() -> (r: Self)
        ensures
            r.character == '\n',
            r.signs@.len() == 0,
            r.act == ActionMapping::CarriageReturn,
            r.repeat_times.is_none(),
            r.wf(),
    {
        let mut item = Self::new('\n');
        item.act = ActionMapping::CarriageReturn;
        item
    }

    /// Strike every petal of the symbol with `impression`.
    pub fn imp(self, impression: Impression) -> (r: Self)
        ensures
            r.signs@.len() == self.signs@.len(),
            forall|i: int|
                0 <= i < self.signs@.len() ==> #[trigger] r.signs@[i] == (Sign {
                    imp: impression,
                    ..self.signs@[i]
                }),
            r.character == self.character,
            r.act == self.act,
            r.repeat_times == self.repeat_times,
    {
        let mut this = self;
        let ghost before = this.signs@;
        let n = this.signs.len();
        let mut i: usize = 0;
        while i < n
            invariant
                n == before.len(),
                this.signs@.len() == n,
                this.character == self.character,
                this.act == self.act,
                this.repeat_times == self.repeat_times,
                0 <= i <= n,
                forall|j: int| 0 <= j < i ==> #[trigger] this.signs@[j] == (Sign { imp: impression, ..before[j] }),
                forall|j: int| i <= j < n ==> #[trigger] this.signs@[j] == before[j],
            decreases n - i,
        {
            let mut sign = this.signs[i];
            sign.imp = impression;
            this.signs.set(i, sign);
            i = i + 1;
        }
        this
    }

    /// Give every strike of the symbol the carriage motion `after`.
    pub fn after_printed(self, after: AfterSymbolPrinted) -> (r: Self)
        ensures
            r.signs@.len() == self.signs@.len(),
            forall|i: int|
                0 <= i < self.signs@.len() ==> #[trigger] r.signs@[i] == (Sign {
                    after,
                    ..self.signs@[i]
                }),
            r.character == self.character,
            r.act == self.act,
            r.repeat_times == self.repeat_times,
    {
        let mut this = self;
        let ghost before = this.signs@;
        let n = this.signs.len();
        let mut i: usize = 0;
        while i < n
            invariant
                n == before.len(),
                this.signs@.len() == n,
                this.character == self.character,
                this.act == self.act,
                this.repeat_times == self.repeat_times,
                0 <= i <= n,
                forall|j: int| 0 <= j < i ==> #[trigger] this.signs@[j] == (Sign { after, ..before[j] }),
                forall|j: int| i <= j < n ==> #[trigger] this.signs@[j] == before[j],
            decreases n - i,
        {
            let mut sign = this.signs[i];
            sign.after = after;
            this.signs.set(i, sign);
            i = i + 1;
        }
        this
    }
}


impl Symbol {
    /// Strike every petal softly.
    pub fn mild(self) -> (r: Self)
        ensures
            r.signs@.len() == self.signs@.len(),
            forall|i: int|
                0 <= i < self.signs@.len() ==> #[trigger] r.signs@[i] == (Sign {
                    imp: Impression::Mild,
                    ..self.signs@[i]
                }),
            r.character == self.character,
            r.act == self.act,
            r.repeat_times == self.repeat_times,
    {
        self.imp(Impression::Mild)
    }

    /// Strike every petal hard.
    pub fn strong(self) -> (r: Self)
        ensures
            r.signs@.len() == self.signs@.len(),
            forall|i: int|
                0 <= i < self.signs@.len() ==> #[trigger] r.signs@[i] == (Sign {
                    imp: Impression::Strong,
                    ..self.signs@[i]
                }),
            r.character == self.character,
            r.act == self.act,
            r.repeat_times == self.repeat_times,
    {
        self.imp(Impression::Strong)
    }

    /// Keep the carriage in place after every strike.
    pub fn hold(self) -> (r: Self)
        ensures
            r.signs@.len() == self.signs@.len(),
            forall|i: int|
                0 <= i < self.signs@.len() ==> #[trigger] r.signs@[i] == (Sign {
                    after: AfterSymbolPrinted::HoldOn,
                    ..self.signs@[i]
                }),
            r.character == self.character,
            r.act == self.act,
            r.repeat_times == self.repeat_times,
    {
        self.after_printed(AfterSymbolPrinted::HoldOn)
    }

    /// Move the carriage left after every strike.
    pub fn left(self) -> (r: Self)
        ensures
            r.signs@.len() == self.signs@.len(),
            forall|i: int|
                0 <= i < self.signs@.len() ==> #[trigger] r.signs@[i] == (Sign {
                    after: AfterSymbolPrinted::MoveLeft,
                    ..self.signs@[i]
                }),
            r.character == self.character,
            r.act == self.act,
            r.repeat_times == self.repeat_times,
    {
        self.after_printed(AfterSymbolPrinted::MoveLeft)
    }

    /// The strike commands of the symbol: every sign in order, once per repetition.
    pub fn instructions(&self, direction: PrintingDirection) -> (r: Vec<Instruction>)
        ensures
            r@ == self.spec_instructions(direction),
    {
        let mut items: Vec<Instruction> = Vec::new();
        let n = self.signs.len();
        let mut i: usize = 0;
        while i < n
            invariant
                n == self.signs@.len(),
                0 <= i <= n,
                items@ == self.sign_frames(direction).take(i as int),
            decreases n - i,
        {
            let cmd = self.signs[i].build_instruction(direction);
            items.push(cmd);
            i = i + 1;
            assert(items@ =~= self.sign_frames(direction).take(i as int));
        }
        assert(items@ =~= self.sign_frames(direction));
        let times: usize = match self.repeat_times {
            Some(t) => t,
            None => 1,
        };
        let mut rep: Vec<Instruction> = Vec::new();
        let mut k: usize = 0;
        while k < times
            invariant
                times == self.repeat_count(),
                0 <= k <= times,
                items@ == self.sign_frames(direction),
                rep@ == repeat_seq(self.sign_frames(direction), k as nat),
            decreases times - k,
        {
            let mut j: usize = 0;
            let ghost base = rep@;
            while j < items.len()
                invariant
                    0 <= j <= items@.len(),
                    items@ == self.sign_frames(direction),
                    rep@ == base + items@.take(j as int),
                decreases items@.len() - j,
            {
                rep.push(items[j]);
                j = j + 1;
                assert(rep@ =~= base + items@.take(j as int));
            }
            assert(items@.take(j as int) =~= items@);
            k = k + 1;
        }
        rep
    }

    /// Columns the carriage travels while the symbol is printed: the sum of the
    /// strikes' shifts, times the repeat count.
    pub fn x_positions_increment(&self) -> (r: i32)
        requires
            self.signs@.len() <= i32::MAX,
            self.signs@.len() * self.repeat_count() <= i32::MAX,
        ensures
            r as int == self.spec_x_increment(),
    {
        let n = self.signs.len();
        if n == 0 {
            return 0;
        }
        let mut x: i32 = 0;
        let mut i: usize = 0;
        while i < n
            invariant
                n == self.signs@.len(),
                0 <= i <= n,
                x as int == shift_sum(self.signs@.take(i as int)),
                -(i as int) <= x <= i,
                n <= i32::MAX,
                n * self.repeat_count() <= i32::MAX,
            decreases n - i,
        {
            proof {
                assert(self.signs@.take(i + 1).drop_last() =~= self.signs@.take(i as int));
            }
            match self.signs[i].after {
                AfterSymbolPrinted::HoldOn => {},
                AfterSymbolPrinted::MoveLeft => x = x - 1,
                AfterSymbolPrinted::MoveRight => x = x + 1,
            }
            i = i + 1;
        }
        assert(self.signs@.take(n as int) =~= self.signs@);
        let times: usize = match self.repeat_times {
            Some(t) => t,
            None => 1,
        };
        let t = times as i32;
        proof {
            let (ni, ti, xi) = (n as int, times as int, x as int);
            assert(ti == self.repeat_count());
            assert(ni * ti <= i32::MAX);
            assert(ti <= ni * ti) by (nonlinear_arith)
                requires
                    ni >= 1,
                    ti >= 0,
            ;
            assert(-(ni * ti) <= xi * ti <= ni * ti) by (nonlinear_arith)
                requires
                    -ni <= xi <= ni,
                    ti >= 0,
            ;
            assert(t as int == ti);
        }
        x * t
    }
}

/// The column increment of a symbol is the sum over its strikes of
/// `+1` (move right), `-1` (move left) or `0` (hold), times its repeat count.
pub proof fn lemma_x_increment_is_shift_sum(s: SymbolView)
    ensures
        s.spec_x_increment() == shift_sum(s.signs) * s.repeat_count(),
{
}

} // verus!
