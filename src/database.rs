use vstd::prelude::*;
use itertools::Itertools;
use crate::impression::Impression;
use crate::sign::Sign;
use crate::symbol::{ActionMapping, AfterSymbolPrinted, Symbol, SymbolView};

verus! {

/// The maximal runs of equal consecutive characters of `s`, in order, each
/// with its length.
pub open spec fn runs(s: Seq<char>) -> Seq<(nat, char)>
    decreases s.len(),
{
    if s.len() == 0 {
        Seq::empty()
    } else {
        let before = runs(s.drop_last());
        let c = s.last();
        if before.len() > 0 && before.last().1 == c {
            before.update(before.len() - 1, ((before.last().0 + 1) as nat, c))
        } else {
            before.push((1nat, c))
        }
    }
}

/// Relies on itertools::Itertools::dedup_with_count: it yields, in order, one
/// `(count, item)` pair for each maximal run of equal consecutive items.
#[verifier::external_body]
fn char_runs(s: &str) -> (r: Vec<(usize, char)>)
    ensures
        r@.len() == runs(s@).len(),
        forall|i: int|
            0 <= i < r@.len() ==> (#[trigger] r@[i]).0 == runs(s@)[i].0 && r@[i].1 == runs(s@)[i].1,
{
    s.chars().dedup_with_count().collect()
}

/// The first symbol of `symbols` for character `c`.
pub open spec fn lookup(symbols: Seq<SymbolView>, c: char) -> Option<SymbolView>
    decreases symbols.len(),
{
    if symbols.len() == 0 {
        None
    } else if symbols[0].character == c {
        Some(symbols[0])
    } else {
        lookup(symbols.drop_first(), c)
    }
}

proof fn lemma_lookup_wf(symbols: Seq<SymbolView>, c: char)
    requires
        forall|i: int| 0 <= i < symbols.len() ==> (#[trigger] symbols[i]).wf(),
    ensures
        lookup(symbols, c) matches Some(s) ==> s.wf(),
    decreases symbols.len(),
{
    if symbols.len() > 0 && symbols[0].character != c {
        let rest = symbols.drop_first();
        assert forall|i: int| 0 <= i < rest.len() implies (#[trigger] rest[i]).wf() by {
            assert(rest[i] == symbols[i + 1]);
        }
        lemma_lookup_wf(rest, c);
    }
}

/// The symbols of a daisy wheel, and the symbol printed for characters the wheel lacks.
pub struct Db {
    pub symbols: Vec<Symbol>,
    pub unknown: Symbol,
}

impl Db {
    pub open spec fn symbol_views(&self) -> Seq<SymbolView> {
        self.symbols@.map_values(|s: Symbol| s@)
    }

    /// Every symbol of the wheel, and the fallback, is well formed.
    pub open spec fn wf(&self) -> bool {
        &&& forall|i: int| 0 <= i < self.symbols@.len() ==> (#[trigger] self.symbols@[i])@.wf()
        &&& self.unknown@.wf()
    }

    /// The symbol for `count` consecutive characters `c`: the wheel's first
    /// symbol for `c`, marked with the count when it is above one, or else the fallback.
    pub open spec fn spec_get(&self, c: char, count: nat) -> SymbolView {
        match lookup(self.symbol_views(), c) {
            Some(s) => if count > 1 {
                SymbolView { repeat_times: Some(count as usize), ..s }
            } else {
                s
            },
            None => self.unknown@,
        }
    }

    /// The symbols that print `input`: one per run of equal consecutive characters.
    pub open spec fn spec_printables(&self, input: Seq<char>) -> Seq<SymbolView> {
        runs(input).map_values(|p: (nat, char)| self.spec_get(p.1, p.0))
    }

    /// An empty wheel whose fallback prints `*` from petal 41.
    pub fn new() -> (r: Self)
        ensures
            r.symbols@.len() == 0,
            r.unknown@.character == '*',
            r.unknown@.signs == seq![
                Sign { idx: 41, imp: Impression::Normal, after: AfterSymbolPrinted::MoveRight },
            ],
            r.unknown@.act == ActionMapping::Print,
            r.unknown@.repeat_times.is_none(),
            r.wf(),
    {
        let unknown = Symbol::new('*').petal(41);
        assert(unknown.signs@ =~= seq![
            Sign { idx: 41, imp: Impression::Normal, after: AfterSymbolPrinted::MoveRight },
        ]);
        Db { symbols: Vec::new(), unknown }
    }

    /// The symbol for `count` consecutive characters `character`.
    pub fn get(&self, character: char, count: usize) -> (r: Symbol)
        ensures
            r@ == self.spec_get(character, count as nat),
            self.wf() ==> r@.wf(),
    {
        let ghost views = self.symbol_views();
        assert(views.skip(0) =~= views);
        let mut i: usize = 0;
        while i < self.symbols.len()
            invariant
                0 <= i <= self.symbols@.len(),
                views == self.symbol_views(),
                lookup(views, character) == lookup(views.skip(i as int), character),
            decreases self.symbols@.len() - i,
        {
            let ghost rest = views.skip(i as int);
            assert(rest[0] == self.symbols@[i as int]@);
            if self.symbols[i].character == character {
                let mut sym = self.symbols[i].copy();
                if count > 1 {
                    sym.repeat_times = Some(count);
                }
                proof {
                    self.lemma_get_wf(character, count as nat);
                }
                return sym;
            }
            assert(rest.drop_first() =~= views.skip(i + 1));
            i = i + 1;
        }
        proof {
            self.lemma_get_wf(character, count as nat);
        }
        self.unknown.copy()
    }

    proof fn lemma_get_wf(&self, c: char, count: nat)
        requires
            count <= usize::MAX,
        ensures
            self.wf() ==> self.spec_get(c, count).wf(),
    {
        if self.wf() {
            let views = self.symbol_views();
            assert forall|i: int| 0 <= i < views.len() implies (#[trigger] views[i]).wf() by {
                assert(views[i] == self.symbols@[i]@);
            }
            lemma_lookup_wf(views, c);
        }
    }

    /// The symbols that print `input`, coalescing runs of equal consecutive characters.
    pub fn printables(&self, input: &str) -> (r: Vec<Symbol>)
        ensures
            r@.len() == self.spec_printables(input@).len(),
            forall|i: int| 0 <= i < r@.len() ==> (#[trigger] r@[i])@ == self.spec_printables(input@)[i],
    {
        let pairs = char_runs(input);
        let ghost spec_runs = runs(input@);
        let mut out: Vec<Symbol> = Vec::new();
        let mut i: usize = 0;
        while i < pairs.len()
            invariant
                0 <= i <= pairs@.len(),
                spec_runs == runs(input@),
                pairs@.len() == spec_runs.len(),
                forall|k: int|
                    0 <= k < pairs@.len() ==> (#[trigger] pairs@[k]).0 == spec_runs[k].0
                        && pairs@[k].1 == spec_runs[k].1,
                out@.len() == i,
                forall|k: int| 0 <= k < i ==> (#[trigger] out@[k])@ == self.spec_printables(input@)[k],
            decreases pairs@.len() - i,
        {
            let (count, c) = pairs[i];
            let sym = self.get(c, count);
            out.push(sym);
            i = i + 1;
        }
        out
    }
}

impl Default for Db {
    fn default() -> (r: Self)
        ensures
            r.symbols@.len() == 0,
            r.unknown@.character == '*',
            r.unknown@.signs == seq![
                Sign { idx: 41, imp: Impression::Normal, after: AfterSymbolPrinted::MoveRight },
            ],
            r.unknown@.act == ActionMapping::Print,
            r.unknown@.repeat_times.is_none(),
            r.wf(),
    {
        Db::new()
    }
}

/// A well-formed wheel gives every character a well-formed symbol: in
/// particular a printing symbol always has at least one strike.
pub proof fn lemma_printing_symbols_have_signs(db: &Db, c: char, count: nat)
    requires
        db.wf(),
        count <= usize::MAX,
    ensures
        db.spec_get(c, count).wf(),
        db.spec_get(c, count).act == ActionMapping::Print ==> db.spec_get(c, count).signs.len() > 0,
{
    db.lemma_get_wf(c, count);
}

} // verus!
