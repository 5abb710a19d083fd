use vstd::prelude::*;
use crate::impression::Impression;
use crate::symbol::{ActionMapping, AfterSymbolPrinted, Symbol};

verus! {

/// Number of petals on the wheel.
pub const PETALS: usize = 100;

/// The characters of the German wheel, petal by petal from petal 1, with the
/// impression each one needs.
fn petal_table() -> (r: Vec<(char, Impression)>)
    ensures
        r@.len() == PETALS,
{
    let r = vec![
        ('.', Impression::Mild),
        (',', Impression::Mild),
        ('-', Impression::Mild),
        ('v', Impression::Normal),
        ('l', Impression::Normal),
        ('m', Impression::Normal),
        ('j', Impression::Normal),
        ('w', Impression::Normal),
        ('\u{b2}', Impression::Normal),
        ('\u{b5}', Impression::Normal),
        ('f', Impression::Normal),
        ('^', Impression::Normal),
        ('>', Impression::Normal),
        ('\u{b4}', Impression::Normal),
        ('+', Impression::Normal),
        ('1', Impression::Normal),
        ('2', Impression::Normal),
        ('3', Impression::Normal),
        ('4', Impression::Normal),
        ('5', Impression::Normal),
        ('6', Impression::Normal),
        ('7', Impression::Normal),
        ('8', Impression::Normal),
        ('9', Impression::Normal),
        ('0', Impression::Normal),
        ('E', Impression::Normal),
        ('|', Impression::Normal),
        ('B', Impression::Normal),
        ('F', Impression::Normal),
        ('P', Impression::Normal),
        ('S', Impression::Normal),
        ('Z', Impression::Normal),
        ('V', Impression::Normal),
        ('&', Impression::Normal),
        ('Y', Impression::Normal),
        ('A', Impression::Normal),
        ('T', Impression::Normal),
        ('L', Impression::Normal),
        ('$', Impression::Normal),
        ('R', Impression::Normal),
        ('*', Impression::Normal),
        ('C', Impression::Normal),
        ('"', Impression::Normal),
        ('D', Impression::Normal),
        ('?', Impression::Normal),
        ('N', Impression::Normal),
        ('I', Impression::Normal),
        ('U', Impression::Normal),
        (')', Impression::Normal),
        ('W', Impression::Strong),
        ('_', Impression::Normal),
        ('=', Impression::Normal),
        (';', Impression::Normal),
        (':', Impression::Normal),
        ('M', Impression::Strong),
        ('\'', Impression::Normal),
        ('H', Impression::Normal),
        ('(', Impression::Normal),
        ('K', Impression::Normal),
        ('/', Impression::Normal),
        ('O', Impression::Strong),
        ('!', Impression::Normal),
        ('X', Impression::Normal),
        ('\u{a7}', Impression::Strong),
        ('Q', Impression::Strong),
        ('J', Impression::Normal),
        ('%', Impression::Normal),
        ('\u{b3}', Impression::Normal),
        ('G', Impression::Normal),
        ('\u{b0}', Impression::Normal),
        ('\u{dc}', Impression::Strong),
        ('`', Impression::Mild),
        ('\u{d6}', Impression::Normal),
        ('<', Impression::Normal),
        ('\u{c4}', Impression::Strong),
        ('#', Impression::Normal),
        ('t', Impression::Normal),
        ('x', Impression::Normal),
        ('q', Impression::Normal),
        ('\u{df}', Impression::Normal),
        ('\u{fc}', Impression::Normal),
        ('\u{f6}', Impression::Normal),
        ('\u{e4}', Impression::Normal),
        ('y', Impression::Normal),
        ('k', Impression::Normal),
        ('p', Impression::Normal),
        ('h', Impression::Normal),
        ('c', Impression::Normal),
        ('g', Impression::Normal),
        ('n', Impression::Normal),
        ('r', Impression::Normal),
        ('s', Impression::Normal),
        ('e', Impression::Normal),
        ('a', Impression::Normal),
        ('i', Impression::Normal),
        ('d', Impression::Normal),
        ('u', Impression::Normal),
        ('b', Impression::Normal),
        ('o', Impression::Normal),
        ('z', Impression::Normal),
    ];
    r
}

/// An accented vowel: the base petal held in place, the accent laid over it.
fn accented(character: char, base: u8, grave: bool) -> (r: Symbol)
    ensures
        r@.wf(),
        r@.character == character,
        r@.act == ActionMapping::Print,
        r@.signs.len() == 2,
        r@.signs[0].idx == base,
        r@.signs[0].after == AfterSymbolPrinted::HoldOn,
        r@.signs[1].after == AfterSymbolPrinted::MoveRight,
{
    let s = Symbol::new(character).petal(base);
    if grave {
        s.grave()
    } else {
        s.acute()
    }
}

/// The symbols of the German wheel: one for each petal 1 to 100, in petal
/// order, then the Italian grave and acute vowels, the blank and the line break.
pub fn symbols() -> (r: Vec<Symbol>)
    ensures
        r@.len() == PETALS + 12,
        forall|i: int| 0 <= i < r@.len() ==> (#[trigger] r@[i])@.wf(),
        forall|i: int|
            0 <= i < PETALS ==> {
                &&& (#[trigger] r@[i])@.act == ActionMapping::Print
                &&& r@[i]@.signs.len() == 1
                &&& r@[i]@.signs[0].idx == i + 1
                &&& r@[i]@.signs[0].after == AfterSymbolPrinted::MoveRight
            },
        forall|i: int|
            PETALS <= i < PETALS + 10 ==> {
                &&& (#[trigger] r@[i])@.act == ActionMapping::Print
                &&& r@[i]@.signs.len() == 2
                &&& r@[i]@.signs[0].after == AfterSymbolPrinted::HoldOn
                &&& r@[i]@.signs[1].after == AfterSymbolPrinted::MoveRight
            },
        r@[PETALS + 10]@.character == ' ',
        r@[PETALS + 10]@.act == ActionMapping::Whitespace,
        r@[PETALS + 11]@.character == '\n',
        r@[PETALS + 11]@.act == ActionMapping::CarriageReturn,
{
    let table = petal_table();
    let mut things: Vec<Symbol> = Vec::with_capacity(PETALS + 12);
    let mut i: usize = 0;
    while i < PETALS
        invariant
            table@.len() == PETALS,
            0 <= i <= PETALS,
            things@.len() == i,
            forall|k: int| 0 <= k < i ==> (#[trigger] things@[k])@.wf(),
            forall|k: int|
                0 <= k < i ==> {
                    &&& (#[trigger] things@[k])@.act == ActionMapping::Print
                    &&& things@[k]@.signs.len() == 1
                    &&& things@[k]@.signs[0].idx == k + 1
                    &&& things@[k]@.signs[0].after == AfterSymbolPrinted::MoveRight
                },
        decreases PETALS - i,
    {
        let (c, imp) = table[i];
        let sym = Symbol::new(c).petal((i + 1) as u8).imp(imp);
        things.push(sym);
        i = i + 1;
    }
    let vowels: [(char, u8, bool); 10] = [
        ('\u{e0}', 94, true),
        ('\u{e8}', 93, true),
        ('\u{ec}', 95, true),
        ('\u{f2}', 99, true),
        ('\u{f9}', 97, true),
        ('\u{e1}', 94, false),
        ('\u{e9}', 93, false),
        ('\u{ed}', 95, false),
        ('\u{f3}', 99, false),
        ('\u{fa}', 97, false),
    ];
    let mut j: usize = 0;
    while j < 10
        invariant
            0 <= j <= 10,
            things@.len() == PETALS + j,
            forall|k: int| 0 <= k < things@.len() ==> (#[trigger] things@[k])@.wf(),
            forall|k: int|
                0 <= k < PETALS ==> {
                    &&& (#[trigger] things@[k])@.act == ActionMapping::Print
                    &&& things@[k]@.signs.len() == 1
                    &&& things@[k]@.signs[0].idx == k + 1
                    &&& things@[k]@.signs[0].after == AfterSymbolPrinted::MoveRight
                },
            forall|k: int|
                PETALS <= k < PETALS + j ==> {
                    &&& (#[trigger] things@[k])@.act == ActionMapping::Print
                    &&& things@[k]@.signs.len() == 2
                    &&& things@[k]@.signs[0].after == AfterSymbolPrinted::HoldOn
                    &&& things@[k]@.signs[1].after == AfterSymbolPrinted::MoveRight
                },
        decreases 10 - j,
    {
        let (c, base, grave) = vowels[j];
        things.push(accented(c, base, grave));
        j = j + 1;
    }
    things.push(Symbol::whitespace());
    things.push(Symbol::cr());
    things
}

} // verus!
