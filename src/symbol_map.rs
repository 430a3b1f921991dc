//! A map from symbols to prices that keeps its symbols in ascending order.
use vstd::prelude::*;
use crate::decimal::Decimal;
use crate::symbol_order::{string_views, compare_symbols, lemma_symbol_lt_distinct, lemma_symbol_lt_transitive, symbol_lt, Comparison};

verus! {

/// One stored price.
#[derive(Clone, Debug, PartialEq, Eq)]
pub struct PriceEntry {
    pub symbol: String,
    pub price: Decimal,
}

/// Symbols and their prices, each symbol at most once, in ascending order.
pub struct SymbolMap {
    entries: Vec<PriceEntry>,
}

impl View for SymbolMap {
    type V = Map<Seq<char>, Decimal>;

    closed spec fn view(&self) -> Map<Seq<char>, Decimal> {
        Map::new(
            |k: Seq<char>| exists|i: int| 0 <= i < self.entries@.len() && self.entries@[i].symbol@ == k,
            |k: Seq<char>| self.entries@[self.index_of(k)].price,
        )
    }
}

impl SymbolMap {
    /// Where `k` is stored, when it is.
    closed spec fn index_of(&self, k: Seq<char>) -> int {
        choose|i: int| 0 <= i < self.entries@.len() && self.entries@[i].symbol@ == k
    }

    /// The stored symbols, in the order they are kept.
    pub closed spec fn symbols(&self) -> Seq<Seq<char>> {
        self.entries@.map_values(|e: PriceEntry| e.symbol@)
    }

    /// Symbols stand in strictly ascending order.
    pub closed spec fn wf(&self) -> bool {
        forall|i: int, j: int|
            0 <= i < j < self.entries@.len() ==> symbol_lt(
                #[trigger] self.entries@[i].symbol@,
                #[trigger] self.entries@[j].symbol@,
            )
    }

    /// A well-formed map holds its symbols in ascending order, and they are
    /// exactly the keys of its view.
    pub proof fn lemma_symbols(&self)
        requires
            self.wf(),
        ensures
            forall|i: int, j: int|
                0 <= i < j < self.symbols().len() ==> symbol_lt(
                    #[trigger] self.symbols()[i],
                    #[trigger] self.symbols()[j],
                ),
            forall|k: Seq<char>| #[trigger]
                self@.contains_key(k) <==> self.symbols().contains(k),
    {
        assert forall|k: Seq<char>| #[trigger] self@.contains_key(k) <==> self.symbols().contains(k) by {
            if self@.contains_key(k) {
                let i = choose|i: int| 0 <= i < self.entries@.len() && self.entries@[i].symbol@ == k;
                assert(self.symbols()[i] == k);
            }
            if self.symbols().contains(k) {
                let i = choose|i: int| 0 <= i < self.symbols().len() && self.symbols()[i] == k;
                assert(self.entries@[i].symbol@ == k);
            }
        }
    }

    proof fn lemma_view_at(&self, i: int)
        requires
            self.wf(),
            0 <= i < self.entries@.len(),
        ensures
            self@.contains_key(self.entries@[i].symbol@),
            self@[self.entries@[i].symbol@] == self.entries@[i].price,
    {
        let k = self.entries@[i].symbol@;
        assert(self@.dom().contains(k));
        let j = self.index_of(k);
        if j < i {
            assert(symbol_lt(self.entries@[j].symbol@, self.entries@[i].symbol@));
            lemma_symbol_lt_distinct(self.entries@[j].symbol@, k);
        } else if i < j {
            assert(symbol_lt(self.entries@[i].symbol@, self.entries@[j].symbol@));
            lemma_symbol_lt_distinct(k, self.entries@[j].symbol@);
        }
        assert(j == i);
        assert(self@[k] == self.entries@[j].price);
    }

    /// The empty map.
    pub fn new() -> (r: SymbolMap)
        ensures
            r.wf(),
            r@ == Map::<Seq<char>, Decimal>::empty(),
    {
        let r = SymbolMap { entries: Vec::new() };
        assert(r@ =~= Map::<Seq<char>, Decimal>::empty());
        r
    }

    /// The number of stored symbols.
    pub fn len(&self) -> (r: usize)
        requires
            self.wf(),
        ensures
            r == self.symbols().len(),
            r == self@.dom().len(),
    {
        proof {
            self.lemma_symbols();
            self.lemma_dom_len();
        }
        self.entries.len()
    }

    proof fn lemma_dom_len(&self)
        requires
            self.wf(),
        ensures
            self@.dom().finite(),
            self@.dom().len() == self.symbols().len(),
    {
        self.lemma_symbols();
        let s = self.symbols();
        assert forall|i: int, j: int| 0 <= i < s.len() && 0 <= j < s.len() && i != j implies s[i] != s[j] by {
            if i < j {
                lemma_symbol_lt_distinct(s[i], s[j]);
            } else {
                lemma_symbol_lt_distinct(s[j], s[i]);
            }
        }
        assert(s.no_duplicates());
        assert(self@.dom() =~= s.to_set());
        s.unique_seq_to_set();
    }

    /// The price stored for `symbol`, if any.
    pub fn get(&self, symbol: &String) -> (r: Option<Decimal>)
        requires
            self.wf(),
        ensures
            r == (if self@.contains_key(symbol@) { Some(self@[symbol@]) } else { None::<Decimal> }),
    {
        let mut i: usize = 0;
        while i < self.entries.len()
            invariant
                self.wf(),
                i <= self.entries@.len(),
                forall|j: int| 0 <= j < i ==> self.entries@[j].symbol@ != symbol@,
            decreases self.entries@.len() - i,
        {
            if self.entries[i].symbol == *symbol {
                proof {
                    self.lemma_view_at(i as int);
                }
                return Some(self.entries[i].price);
            }
            i = i + 1;
        }
        None
    }

    /// Whether `symbol` has a price.
    pub fn contains(&self, symbol: &String) -> (r: bool)
        requires
            self.wf(),
        ensures
            r == self@.contains_key(symbol@),
    {
        self.get(symbol).is_some()
    }

    /// Stores `price` for `symbol`, replacing what was there.
    pub fn insert(&mut self, symbol: String, price: Decimal)
        requires
            old(self).wf(),
        ensures
            final(self).wf(),
            final(self)@ == old(self)@.insert(symbol@, price),
    {
        let ghost before = self.entries@;
        let mut p: usize = 0;
        let mut found = false;
        let mut stop = false;
        while !stop && p < self.entries.len()
            invariant
                self.wf(),
                self.entries@ == before,
                p <= self.entries@.len(),
                forall|j: int| 0 <= j < p ==> symbol_lt(#[trigger] self.entries@[j].symbol@, symbol@),
                found ==> stop,
                stop ==> p < self.entries@.len(),
                stop && found ==> self.entries@[p as int].symbol@ == symbol@,
                stop && !found ==> symbol_lt(symbol@, self.entries@[p as int].symbol@),
            decreases self.entries@.len() - p + (if stop { 0int } else { 1int }),
        {
            match compare_symbols(&self.entries[p].symbol, &symbol) {
                Comparison::Less => {
                    p = p + 1;
                },
                Comparison::Equal => {
                    found = true;
                    stop = true;
                },
                Comparison::Greater => {
                    stop = true;
                },
            }
        }
        let ghost old_map = self@;
        if found {
            let ghost old_self = *self;
            let e = PriceEntry { symbol, price };
            self.entries.set(p, e);
            proof {
                assert forall|i: int, j: int| 0 <= i < j < self.entries@.len() implies symbol_lt(
                    #[trigger] self.entries@[i].symbol@,
                    #[trigger] self.entries@[j].symbol@,
                ) by {
                    assert(old_self.entries@[i].symbol@ == self.entries@[i].symbol@);
                    assert(old_self.entries@[j].symbol@ == self.entries@[j].symbol@);
                }
                self.lemma_insert_view(&old_self, p as int, symbol@, price, false);
            }
        } else {
            let ghost old_self = *self;
            let e = PriceEntry { symbol, price };
            proof {
                if p < before.len() {
                    assert(symbol_lt(e.symbol@, before[p as int].symbol@));
                }
            }
            self.entries.insert(p, e);
            proof {
                assert forall|i: int, j: int| 0 <= i < j < self.entries@.len() implies symbol_lt(
                    #[trigger] self.entries@[i].symbol@,
                    #[trigger] self.entries@[j].symbol@,
                ) by {
                    if i < p && j == p {
                    } else if i < p && j > p {
                        assert(symbol_lt(before[i].symbol@, before[j - 1].symbol@));
                    } else if i == p && j > p {
                        if j - 1 > p {
                            lemma_symbol_lt_transitive(e.symbol@, before[p as int].symbol@, before[j - 1].symbol@);
                        }
                    } else if i > p {
                        assert(symbol_lt(before[i - 1].symbol@, before[j - 1].symbol@));
                    } else {
                        assert(symbol_lt(before[i].symbol@, before[j].symbol@));
                    }
                }
                self.lemma_insert_view(&old_self, p as int, e.symbol@, price, true);
            }
        }
    }

    proof fn lemma_insert_view(&self, old_self: &SymbolMap, p: int, k: Seq<char>, v: Decimal, shifted: bool)
        requires
            self.wf(),
            old_self.wf(),
            0 <= p < self.entries@.len(),
            self.entries@[p].symbol@ == k,
            self.entries@[p].price == v,
            shifted ==> self.entries@.len() == old_self.entries@.len() + 1
                && (forall|i: int| 0 <= i < p ==> self.entries@[i] == old_self.entries@[i])
                && (forall|i: int| p < i < self.entries@.len() ==> self.entries@[i] == old_self.entries@[i - 1]),
            !shifted ==> self.entries@.len() == old_self.entries@.len()
                && old_self.entries@[p].symbol@ == k
                && (forall|i: int| 0 <= i < self.entries@.len() && i != p ==> self.entries@[i] == old_self.entries@[i]),
        ensures
            self@ == old_self@.insert(k, v),
    {
        let m = old_self@.insert(k, v);
        assert forall|q: Seq<char>| #[trigger] self@.contains_key(q) <==> m.contains_key(q) by {
            if self@.contains_key(q) {
                let j = choose|j: int| 0 <= j < self.entries@.len() && self.entries@[j].symbol@ == q;
                if j != p {
                    let oj = if shifted && j > p { j - 1 } else { j };
                    old_self.lemma_view_at(oj);
                }
            }
            if m.contains_key(q) && q != k {
                let oj = choose|j: int| 0 <= j < old_self.entries@.len() && old_self.entries@[j].symbol@ == q;
                let nj = if shifted && oj >= p { oj + 1 } else { oj };
                if !shifted && oj == p {
                } else {
                    self.lemma_view_at(nj);
                }
            }
            if q == k {
                self.lemma_view_at(p);
            }
        }
        assert forall|q: Seq<char>| #[trigger] self@.contains_key(q) implies self@[q] == m[q] by {
            if q == k {
                self.lemma_view_at(p);
            } else {
                let oj = choose|j: int| 0 <= j < old_self.entries@.len() && old_self.entries@[j].symbol@ == q;
                let nj = if shifted && oj >= p { oj + 1 } else { oj };
                old_self.lemma_view_at(oj);
                self.lemma_view_at(nj);
            }
        }
        assert(self@ =~= m);
    }

    /// The stored symbols in ascending order.
    pub fn symbols_ascending(&self) -> (r: Vec<String>)
        requires
            self.wf(),
        ensures
            string_views(r@) == self.symbols(),
    {
        let mut r: Vec<String> = Vec::new();
        let mut i: usize = 0;
        while i < self.entries.len()
            invariant
                i <= self.entries@.len(),
                r@.len() == i,
                string_views(r@) == self.symbols().subrange(0, i as int),
            decreases self.entries@.len() - i,
        {
            let s = self.entries[i].symbol.clone();
            assert(s@ == self.symbols()[i as int]);
            let ghost prev = r@;
            r.push(s);
            i = i + 1;
            assert forall|j: int| 0 <= j < i implies #[trigger] string_views(r@)[j] == self.symbols()[j] by {
                if j < i - 1 {
                    assert(r@[j] == prev[j]);
                    assert(string_views(prev)[j] == self.symbols().subrange(0, i - 1)[j]);
                }
            }
            assert(string_views(r@) =~= self.symbols().subrange(0, i as int));
        }
        assert(self.symbols().subrange(0, i as int) =~= self.symbols());
        r
    }
}

} // verus!
