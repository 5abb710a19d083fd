use vstd::prelude::*;
use crate::impression::Impression;
use crate::machine::PrintingDirection;
use crate::printing::{frame, Instruction};
use crate::symbol::AfterSymbolPrinted;

verus! {

/// One strike of the daisy wheel: the petal `idx` is hit with force `imp`,
/// then the carriage does what `after` says.
#[derive(PartialEq, Eq, Structural, Debug, Clone, Copy)]
pub struct Sign {
    pub idx: u8,
    pub imp: Impression,
    pub after: AfterSymbolPrinted,
}

/// Second byte of a strike command: the impression level in the low six bits,
/// the carriage motion in the high two bits.
pub open spec fn strike_byte(imp: Impression, after: AfterSymbolPrinted) -> u8 {
    (imp.spec_value() + after.spec_value()) as u8
}

impl Sign {
    /// The strike command of this sign when printing in direction `dir`.
    pub open spec fn spec_instruction(self, dir: PrintingDirection) -> Instruction {
        frame(self.idx, strike_byte(self.imp, self.after.spec_with_direction(dir)))
    }

    /// Build a single `Instruction` for the `Sign` taking into account
    /// the current `PrintingDirection`.
    pub fn build_instruction(&self, dir: PrintingDirection) -> (r: Instruction)
        ensures
            r == self.spec_instruction(dir),
    {
        let b1 = self.idx;
        let level = self.imp.value();
        let bits = self.after.with_direction(dir).value();
        proof {
            lemma_or_is_sum(level, bits);
        }
        let b2 = level | bits;
        Instruction::bytes(b1, b2)
    }
}

/// Joining a level of at most six bits with motion bits adds them.
pub proof fn lemma_or_is_sum(level: u8, bits: u8)
    requires
        level <= 63,
        bits == 0 || bits == 128 || bits == 192,
    ensures
        level | bits == level + bits,
        (level | bits) & 63 == level,
        (level | bits) & 192 == bits,
{
    assert(level | bits == level + bits && (level | bits) & 63 == level && (level | bits) & 192
        == bits) by (bit_vector)
        requires
            level <= 63,
            bits == 0 || bits == 128 || bits == 192,
    ;
}

/// The low six bits of the second byte of a strike command are the impression
/// level it was built from, and the high two bits are the carriage motion.
pub proof fn lemma_strike_byte_decodes(imp: Impression, after: AfterSymbolPrinted)
    ensures
        strike_byte(imp, after) & 63 == imp.spec_value(),
        strike_byte(imp, after) & 192 == after.spec_value(),
{
    imp.lemma_value_in_range();
    lemma_or_is_sum(imp.spec_value() as u8, after.spec_value() as u8);
}

impl Default for Sign {
    fn default() -> (r: Self)
        ensures
            r == (Sign { idx: 0, imp: Impression::Normal, after: AfterSymbolPrinted::MoveRight }),
    {
        Sign { idx: 0, imp: Impression::Normal, after: AfterSymbolPrinted::MoveRight }
    }
}

} // verus!
