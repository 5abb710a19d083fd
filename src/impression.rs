use vstd::prelude::*;

verus! {

/// Strongest hammer level: impressions are six-bit values.
pub const MAX_LEVEL: u8 = 63;

/// A custom ratio `Custom(r)` stands for `r / RATIO_SCALE` of the strongest impression.
pub const RATIO_SCALE: u16 = 1000;

/// Hammer force used to strike a petal.
///
/// The four presets are fixed fractions of the strongest impression; a custom
/// impression gives the fraction in thousandths (a ratio above one counts as one).
#[derive(PartialEq, Eq, Structural, Debug, Clone, Copy)]
pub enum Impression {
    /// Half of the strongest impression.
    Normal,
    /// Three quarters of the strongest impression.
    Strong,
    /// One quarter of the strongest impression.
    Mild,
    /// The strongest impression.
    Strongest,
    /// A ratio in thousandths of the strongest impression.
    Custom(u16),
}

/// The six-bit level of a ratio given in thousandths: `floor(min(ratio, 1) * 63)`.
pub open spec fn level_of(per_mille: int) -> int {
    (if per_mille > RATIO_SCALE as int { RATIO_SCALE as int } else { per_mille }) * MAX_LEVEL as int
        / RATIO_SCALE as int
}

impl Impression {
    /// The ratio of the strongest impression, in thousandths.
    pub open spec fn ratio(self) -> int {
        match self {
            Impression::Normal => 500,
            Impression::Strong => 750,
            Impression::Mild => 250,
            Impression::Strongest => 1000,
            Impression::Custom(r) => r as int,
        }
    }

    pub open spec fn spec_value(self) -> int {
        level_of(self.ratio())
    }

    /// Every impression level lies in `0..=63`.
    pub proof fn lemma_value_in_range(self)
        ensures
            0 <= self.spec_value() <= MAX_LEVEL,
    {
        let r = self.ratio();
        let c = if r > 1000 { 1000 } else { r };
        assert(0 <= c * 63 / 1000 <= 63) by (nonlinear_arith)
            requires
                0 <= c <= 1000,
        ;
    }

    fn convert_value(ratio: u16) -> (r: u8)
        ensures
            r as int == level_of(ratio as int),
            r <= MAX_LEVEL,
    {
        let clamped: u32 = if ratio > RATIO_SCALE {
            RATIO_SCALE as u32
        } else {
            ratio as u32
        };
        assert(clamped * 63 / 1000 <= 63) by (nonlinear_arith)
            requires
                clamped <= 1000,
        ;
        (clamped * (MAX_LEVEL as u32) / (RATIO_SCALE as u32)) as u8
    }

    /// The six-bit hammer level of this impression.
    pub fn value(&self) -> (r: u8)
        ensures
            r as int == self.spec_value(),
            r <= MAX_LEVEL,
    {
        match self {
            Impression::Custom(ratio) => Self::convert_value(*ratio),
            Impression::Strongest => Self::convert_value(1000),
            Impression::Strong => Self::convert_value(750),
            Impression::Normal => Self::convert_value(500),
            Impression::Mild => Self::convert_value(250),
        }
    }
}

impl Default for Impression {
    fn default() -> (r: Self)
        ensures
            r == Impression::Normal,
    {
        Impression::Normal
    }
}

} // verus!
