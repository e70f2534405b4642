//! A small table keyed by symbol. It holds at most one value for a symbol
//! and hands a value out for changing in place.

use crate::utils::text::same_text;
use vstd::prelude::*;

verus! {

/// A table from symbols to values.
pub struct SymbolTable<V> {
    symbols: Vec<String>,
    values: Vec<V>,
}

spec fn distinct(symbols: Seq<String>) -> bool {
    forall|i: int, j: int|
        0 <= i < j < symbols.len() ==> (#[trigger] symbols[i])@ != (#[trigger] symbols[j])@
}

spec fn has_symbol(symbols: Seq<String>, symbol: Seq<char>) -> bool {
    exists|i: int| 0 <= i < symbols.len() && (#[trigger] symbols[i])@ == symbol
}

spec fn index_of(symbols: Seq<String>, symbol: Seq<char>) -> int {
    choose|i: int| 0 <= i < symbols.len() && (#[trigger] symbols[i])@ == symbol
}

spec fn table<V>(symbols: Seq<String>, values: Seq<V>) -> Map<Seq<char>, V> {
    Map::new(
        |symbol: Seq<char>| has_symbol(symbols, symbol),
        |symbol: Seq<char>| values[index_of(symbols, symbol)],
    )
}

proof fn lemma_replace<V>(symbols: Seq<String>, values: Seq<V>, i: int, value: V)
    requires
        distinct(symbols),
        symbols.len() == values.len(),
        0 <= i < symbols.len(),
    ensures
        table(symbols, values.update(i, value)) == table(symbols, values).insert(
            symbols[i]@,
            value,
        ),
{
    let symbol = symbols[i]@;
    assert(has_symbol(symbols, symbol));
    assert(index_of(symbols, symbol) == i);
    assert forall|k: Seq<char>| has_symbol(symbols, k) && k != symbol implies index_of(symbols, k)
        != i by {}
    assert(table(symbols, values.update(i, value)) =~= table(symbols, values).insert(
        symbol,
        value,
    ));
}

proof fn lemma_add<V>(symbols: Seq<String>, values: Seq<V>, symbol: String, value: V)
    requires
        distinct(symbols),
        symbols.len() == values.len(),
        !has_symbol(symbols, symbol@),
    ensures
        distinct(symbols.push(symbol)),
        table(symbols.push(symbol), values.push(value)) == table(symbols, values).insert(
            symbol@,
            value,
        ),
{
    let longer = symbols.push(symbol);
    let n = symbols.len() as int;
    assert forall|i: int, j: int| 0 <= i < j < longer.len() implies (#[trigger] longer[i])@ != (
    #[trigger] longer[j])@ by {
        if j == n {
            assert(longer[i] == symbols[i]);
            if symbols[i]@ == symbol@ {
                assert(has_symbol(symbols, symbol@));
            }
        } else {
            assert(longer[i] == symbols[i] && longer[j] == symbols[j]);
        }
    }
    assert(longer[n]@ == symbol@);
    assert(has_symbol(longer, symbol@));
    assert(index_of(longer, symbol@) == n);
    assert forall|k: Seq<char>| has_symbol(symbols, k) implies has_symbol(longer, k) && index_of(
        longer,
        k,
    ) == index_of(symbols, k) by {
        let i = index_of(symbols, k);
        assert(longer[i]@ == k);
        assert(has_symbol(longer, k));
    }
    assert forall|k: Seq<char>| has_symbol(longer, k) && k != symbol@ implies has_symbol(
        symbols,
        k,
    ) by {
        let i = index_of(longer, k);
        assert(symbols[i]@ == k);
    }
    assert(table(longer, values.push(value)) =~= table(symbols, values).insert(symbol@, value));
}

proof fn lemma_remove<V>(symbols: Seq<String>, values: Seq<V>, i: int)
    requires
        distinct(symbols),
        symbols.len() == values.len(),
        0 <= i < symbols.len(),
    ensures
        distinct(symbols.remove(i)),
        table(symbols.remove(i), values.remove(i)) == table(symbols, values).remove(symbols[i]@),
{
    let shorter = symbols.remove(i);
    let symbol = symbols[i]@;
    assert forall|a: int, b: int| 0 <= a < b < shorter.len() implies (#[trigger] shorter[a])@ != (
    #[trigger] shorter[b])@ by {
        let a0 = if a < i { a } else { a + 1 };
        let b0 = if b < i { b } else { b + 1 };
        assert(shorter[a] == symbols[a0] && shorter[b] == symbols[b0]);
    }
    assert forall|k: Seq<char>| has_symbol(shorter, k) implies has_symbol(symbols, k) && k
        != symbol && index_of(symbols, k) == (if index_of(shorter, k) < i {
        index_of(shorter, k)
    } else {
        index_of(shorter, k) + 1
    }) by {
        let a = index_of(shorter, k);
        let a0 = if a < i { a } else { a + 1 };
        assert(shorter[a] == symbols[a0]);
        assert(symbols[a0]@ == k);
        assert(has_symbol(symbols, k));
    }
    assert forall|k: Seq<char>| has_symbol(symbols, k) && k != symbol implies has_symbol(
        shorter,
        k,
    ) by {
        let a0 = index_of(symbols, k);
        let a = if a0 < i { a0 } else { a0 - 1 };
        assert(shorter[a] == symbols[a0]);
    }
    assert(table(shorter, values.remove(i)) =~= table(symbols, values).remove(symbol));
}

impl<V> SymbolTable<V> {
    #[verifier::type_invariant]
    spec fn one_value_per_symbol(self) -> bool {
        &&& self.symbols.len() == self.values.len()
        &&& distinct(self.symbols@)
    }

    /// The values by symbol.
    pub closed spec fn entries(&self) -> Map<Seq<char>, V> {
        table(self.symbols@, self.values@)
    }

    pub fn new() -> (r: SymbolTable<V>)
        ensures
            r.entries() == Map::<Seq<char>, V>::empty(),
    {
        let r = SymbolTable { symbols: Vec::new(), values: Vec::new() };
        proof {
            assert(r.entries() =~= Map::<Seq<char>, V>::empty());
        }
        r
    }

    fn find(&self, symbol: &str) -> (r: Option<usize>)
        ensures
            match r {
                Some(i) => i < self.symbols.len() && self.symbols[i as int]@ == symbol@
                    && index_of(self.symbols@, symbol@) == i && has_symbol(self.symbols@, symbol@),
                None => !has_symbol(self.symbols@, symbol@),
            },
    {
        proof {
            use_type_invariant(self);
        }
        let mut i: usize = 0;
        while i < self.symbols.len()
            invariant
                i <= self.symbols.len(),
                distinct(self.symbols@),
                forall|j: int| 0 <= j < i ==> (#[trigger] self.symbols[j])@ != symbol@,
            decreases self.symbols.len() - i,
        {
            if same_text(self.symbols[i].as_str(), symbol) {
                proof {
                    assert(self.symbols@[i as int]@ == symbol@);
                    assert(has_symbol(self.symbols@, symbol@));
                    let k = index_of(self.symbols@, symbol@);
                    assert(k == i);
                }
                return Some(i);
            }
            i = i + 1;
        }
        None
    }

    /// Whether the table holds a value for the symbol.
    pub fn contains(&self, symbol: &str) -> (r: bool)
        ensures
            r == self.entries().contains_key(symbol@),
    {
        self.find(symbol).is_some()
    }

    /// The value of the symbol, if the table holds one.
    pub fn get(&self, symbol: &str) -> (r: Option<&V>)
        ensures
            match r {
                Some(value) => self.entries().contains_key(symbol@) && *value
                    == self.entries()[symbol@],
                None => !self.entries().contains_key(symbol@),
            },
    {
        proof {
            use_type_invariant(self);
        }
        match self.find(symbol) {
            Some(i) => Some(&self.values[i]),
            None => None,
        }
    }

    /// The value of the symbol for changing in place, if the table holds
    /// one. The table holds whatever the value is changed to.
    pub fn get_mut(&mut self, symbol: &str) -> (r: Option<&mut V>)
        ensures
            match r {
                Some(value) => {
                    &&& old(self).entries().contains_key(symbol@)
                    &&& *value == old(self).entries()[symbol@]
                    &&& final(self).entries() == old(self).entries().insert(symbol@, *final(value))
                },
                None => !old(self).entries().contains_key(symbol@) && *final(self) == *old(self),
            },
    {
        proof {
            use_type_invariant(&*self);
        }
        match self.find(symbol) {
            Some(i) => {
                proof {
                    assert forall|v: V| #[trigger]
                        table(self.symbols@, self.values@.update(i as int, v)) == table(
                            self.symbols@,
                            self.values@,
                        ).insert(symbol@, v) by {
                        lemma_replace(self.symbols@, self.values@, i as int, v);
                    }
                }
                Some(&mut self.values[i])
            },
            None => None,
        }
    }

    /// Stores the value under the symbol, in place of any value that was
    /// there.
    pub fn insert(&mut self, symbol: &str, value: V)
        ensures
            final(self).entries() == old(self).entries().insert(symbol@, value),
    {
        let mut taken = SymbolTable::new();
        std::mem::swap(self, &mut taken);
        proof {
            use_type_invariant(&taken);
        }
        let found = taken.find(symbol);
        let mut symbols = taken.symbols;
        let mut values = taken.values;
        match found {
            Some(i) => {
                proof {
                    lemma_replace(symbols@, values@, i as int, value);
                }
                values.set(i, value);
            },
            None => {
                let key = symbol.to_owned();
                proof {
                    lemma_add(symbols@, values@, key, value);
                }
                symbols.push(key);
                values.push(value);
            },
        }
        *self = SymbolTable { symbols, values };
    }

    /// Drops the value of the symbol, if the table holds one.
    pub fn remove(&mut self, symbol: &str)
        ensures
            final(self).entries() == old(self).entries().remove(symbol@),
    {
        let mut taken = SymbolTable::new();
        std::mem::swap(self, &mut taken);
        proof {
            use_type_invariant(&taken);
        }
        let found = taken.find(symbol);
        let mut symbols = taken.symbols;
        let mut values = taken.values;
        match found {
            Some(i) => {
                proof {
                    lemma_remove(symbols@, values@, i as int);
                }
                symbols.remove(i);
                values.remove(i);
            },
            None => {
                proof {
                    assert(table(symbols@, values@).remove(symbol@) =~= table(symbols@, values@));
                }
            },
        }
        *self = SymbolTable { symbols, values };
    }
}

} // verus!
