//! One side of an order book: a map from price to quantity that is kept in
//! price order.
//!
//! The levels are stored in a vector in strictly ascending price order, so
//! no price occurs twice and the best level of either side is found at an
//! end. The view of a side is the mathematical map from the raw bits of a
//! price to the raw bits of its quantity.

use crate::objects::fixed_point::{difference_bits, product_bits, sum_bits, Fixed64};
use crate::objects::level::Level;
use vstd::prelude::*;

verus! {

/// Prices grow strictly along the sequence.
pub open spec fn strictly_ascending(s: Seq<Level>) -> bool {
    forall|i: int, j: int| 0 <= i < j < s.len() ==> s[i].price.bits < s[j].price.bits
}

/// The sequence holds exactly the entries of the map: every level of the
/// sequence is an entry, and every entry has a level.
pub open spec fn lists(s: Seq<Level>, m: Map<u64, u64>) -> bool {
    &&& forall|i: int|
        #![trigger s[i]]
        0 <= i < s.len() ==> m.contains_key(s[i].price.bits) && m[s[i].price.bits]
            == s[i].quantity.bits
    &&& forall|k: u64| #[trigger]
        m.contains_key(k) ==> exists|i: int|
            #![trigger s[i]]
            0 <= i < s.len() && s[i].price.bits == k
}

/// The entries of a side as levels in ascending price order. A side has
/// exactly one such sequence; see [`law_price_order_is_determined`].
pub open spec fn price_order(m: Map<u64, u64>) -> Seq<Level> {
    choose|s: Seq<Level>| strictly_ascending(s) && lists(s, m)
}

/// The entries of a side as levels with the best one first: highest price
/// first for bids, lowest price first for asks.
pub open spec fn best_first(m: Map<u64, u64>, highest_first: bool) -> Seq<Level> {
    if highest_first {
        price_order(m).reverse()
    } else {
        price_order(m)
    }
}

/// `k` is the lowest price of the map.
pub open spec fn is_lowest(m: Map<u64, u64>, k: u64) -> bool {
    m.contains_key(k) && forall|j: u64| #[trigger] m.contains_key(j) ==> k <= j
}

/// `k` is the highest price of the map.
pub open spec fn is_highest(m: Map<u64, u64>, k: u64) -> bool {
    m.contains_key(k) && forall|j: u64| #[trigger] m.contains_key(j) ==> j <= k
}

/// The entry with the lowest price, `None` where the map has no lowest
/// price.
pub open spec fn lowest_level(m: Map<u64, u64>) -> Option<Level> {
    if exists|k: u64| is_lowest(m, k) {
        let k = choose|k: u64| is_lowest(m, k);
        Some(Level { price: Fixed64 { bits: k }, quantity: Fixed64 { bits: m[k] } })
    } else {
        None
    }
}

/// The entry with the highest price, `None` where the map has no highest
/// price.
pub open spec fn highest_level(m: Map<u64, u64>) -> Option<Level> {
    if exists|k: u64| is_highest(m, k) {
        let k = choose|k: u64| is_highest(m, k);
        Some(Level { price: Fixed64 { bits: k }, quantity: Fixed64 { bits: m[k] } })
    } else {
        None
    }
}

/// The map after one level of an update: a zero quantity removes the
/// price, any other quantity is stored under it.
pub open spec fn level_applied(m: Map<u64, u64>, level: Level) -> Map<u64, u64> {
    if level.quantity.bits == 0 {
        m.remove(level.price.bits)
    } else {
        m.insert(level.price.bits, level.quantity.bits)
    }
}

/// The map after all levels of an update, taken in order.
pub open spec fn levels_applied(m: Map<u64, u64>, levels: Seq<Level>) -> Map<u64, u64>
    decreases levels.len(),
{
    if levels.len() == 0 {
        m
    } else {
        level_applied(levels_applied(m, levels.drop_last()), levels.last())
    }
}

/// The map that results from storing each level under its price, in
/// order, zero quantities included.
pub open spec fn levels_stored(m: Map<u64, u64>, levels: Seq<Level>) -> Map<u64, u64>
    decreases levels.len(),
{
    if levels.len() == 0 {
        m
    } else {
        levels_stored(m, levels.drop_last()).insert(
            levels.last().price.bits,
            levels.last().quantity.bits,
        )
    }
}

/// Cost of taking `volume` from the levels, best level first: each level
/// is used up whole while the remaining volume covers it, the first level
/// that is larger than the remainder is used for the remainder, and the
/// walk ends there. Where the levels run out first, the cost is that of
/// what was there.
pub open spec fn sweep_cost(best_first: Seq<Level>, volume: u64) -> u64
    decreases best_first.len(),
{
    if best_first.len() == 0 {
        0
    } else {
        let level = best_first.first();
        if volume >= level.quantity.bits {
            sum_bits(
                product_bits(level.price.bits, level.quantity.bits),
                sweep_cost(
                    best_first.drop_first(),
                    difference_bits(volume, level.quantity.bits),
                ),
            )
        } else {
            product_bits(level.price.bits, volume)
        }
    }
}

/// The levels of a side in price order are determined by its entries:
/// two sequences in strictly ascending price order that hold the entries
/// of the same map are the same sequence.
pub proof fn law_price_order_is_determined(a: Seq<Level>, b: Seq<Level>, m: Map<u64, u64>)
    requires
        strictly_ascending(a),
        lists(a, m),
        strictly_ascending(b),
        lists(b, m),
    ensures
        a == b,
    decreases a.len(),
{
    if a.len() == 0 {
        if b.len() > 0 {
            assert(m.contains_key(b[0].price.bits));
        }
        assert(a =~= b);
    } else {
        let top = a.last();
        assert(m.contains_key(top.price.bits));
        let k = choose|k: int| #![trigger b[k]] 0 <= k < b.len() && b[k].price.bits == top.price.bits;
        assert(b[k].price.bits == top.price.bits);
        assert(k == b.len() - 1) by {
            if k < b.len() - 1 {
                let above = b.last();
                assert(m.contains_key(above.price.bits));
                let j = choose|j: int|
                    #![trigger a[j]]
                    0 <= j < a.len() && a[j].price.bits == above.price.bits;
                assert(a[j].price.bits == above.price.bits);
                assert(b[k].price.bits < b[b.len() - 1].price.bits);
                if j < a.len() - 1 {
                    assert(a[j].price.bits < a[a.len() - 1].price.bits);
                }
            }
        }
        assert(b.last() == top);
        let rest = m.remove(top.price.bits);
        let a0 = a.drop_last();
        let b0 = b.drop_last();
        assert(lists(a0, rest)) by {
            assert forall|i: int| #![trigger a0[i]] 0 <= i < a0.len() implies rest.contains_key(
                a0[i].price.bits,
            ) && rest[a0[i].price.bits] == a0[i].quantity.bits by {
                assert(a0[i] == a[i]);
                assert(a[i].price.bits < a[a.len() - 1].price.bits);
            }
            assert forall|key: u64| #[trigger] rest.contains_key(key) implies exists|i: int|
                #![trigger a0[i]]
                0 <= i < a0.len() && a0[i].price.bits == key by {
                let i = choose|i: int| #![trigger a[i]] 0 <= i < a.len() && a[i].price.bits == key;
                assert(a0[i] == a[i]);
            }
        }
        assert(lists(b0, rest)) by {
            assert forall|i: int| #![trigger b0[i]] 0 <= i < b0.len() implies rest.contains_key(
                b0[i].price.bits,
            ) && rest[b0[i].price.bits] == b0[i].quantity.bits by {
                assert(b0[i] == b[i]);
                assert(b[i].price.bits < b[b.len() - 1].price.bits);
            }
            assert forall|key: u64| #[trigger] rest.contains_key(key) implies exists|i: int|
                #![trigger b0[i]]
                0 <= i < b0.len() && b0[i].price.bits == key by {
                let i = choose|i: int| #![trigger b[i]] 0 <= i < b.len() && b[i].price.bits == key;
                assert(b0[i] == b[i]);
            }
        }
        assert(strictly_ascending(a0)) by {
            assert forall|i: int, j: int| 0 <= i < j < a0.len() implies a0[i].price.bits
                < a0[j].price.bits by {
                assert(a0[i] == a[i] && a0[j] == a[j]);
            }
        }
        assert(strictly_ascending(b0)) by {
            assert forall|i: int, j: int| 0 <= i < j < b0.len() implies b0[i].price.bits
                < b0[j].price.bits by {
                assert(b0[i] == b[i] && b0[j] == b[j]);
            }
        }
        law_price_order_is_determined(a0, b0, rest);
        assert(a =~= a0.push(top));
        assert(b =~= b0.push(top));
    }
}

/// A sequence in strictly ascending price order that holds the entries of
/// a map is the price order of the map.
pub proof fn lemma_is_price_order(levels: Seq<Level>, m: Map<u64, u64>)
    requires
        strictly_ascending(levels),
        lists(levels, m),
    ensures
        levels == price_order(m),
{
    law_price_order_is_determined(levels, price_order(m), m);
}

/// Index of the first level whose price is not below `price`.
fn lower_bound(levels: &Vec<Level>, price: u64) -> (idx: usize)
    requires
        strictly_ascending(levels@),
    ensures
        idx <= levels.len(),
        forall|i: int| 0 <= i < idx ==> levels[i].price.bits < price,
        forall|i: int| idx <= i < levels.len() ==> levels[i].price.bits >= price,
{
    let mut lo: usize = 0;
    let mut hi: usize = levels.len();
    while lo < hi
        invariant
            lo <= hi <= levels.len(),
            strictly_ascending(levels@),
            forall|i: int| 0 <= i < lo ==> levels[i].price.bits < price,
            forall|i: int| hi <= i < levels.len() ==> levels[i].price.bits >= price,
        decreases hi - lo,
    {
        let mid: usize = lo + (hi - lo) / 2;
        if levels[mid].price.bits < price {
            lo = mid + 1;
        } else {
            hi = mid;
        }
    }
    lo
}

/// One side of a book, kept in price order.
pub struct BookSide {
    levels: Vec<Level>,
    contents: Ghost<Map<u64, u64>>,
}

impl View for BookSide {
    type V = Map<u64, u64>;

    closed spec fn view(&self) -> Map<u64, u64> {
        self.contents@
    }
}

impl BookSide {
    #[verifier::type_invariant]
    spec fn ordered_and_listed(self) -> bool {
        &&& strictly_ascending(self.levels@)
        &&& lists(self.levels@, self.contents@)
    }

    pub fn new() -> (r: BookSide)
        ensures
            r@ == Map::<u64, u64>::empty(),
    {
        BookSide { levels: Vec::new(), contents: Ghost(Map::empty()) }
    }

    /// Number of levels.
    pub fn len(&self) -> (r: usize)
        ensures
            r == price_order(self@).len(),
    {
        proof {
            use_type_invariant(self);
            lemma_is_price_order(self.levels@, self@);
        }
        self.levels.len()
    }

    pub fn is_empty(&self) -> (r: bool)
        ensures
            r == (self@ == Map::<u64, u64>::empty()),
            r == (price_order(self@).len() == 0),
    {
        proof {
            use_type_invariant(self);
            lemma_is_price_order(self.levels@, self@);
            if self.levels.len() == 0 {
                assert(self@ =~= Map::<u64, u64>::empty());
            } else {
                assert(self@.contains_key(self.levels[0].price.bits));
            }
        }
        self.levels.len() == 0
    }

    /// The quantity at `price`, if the side has that price.
    pub fn get(&self, price: Fixed64) -> (r: Option<Fixed64>)
        ensures
            r == if self@.contains_key(price.bits) {
                Some(Fixed64 { bits: self@[price.bits] })
            } else {
                None
            },
    {
        proof {
            use_type_invariant(self);
        }
        let idx = lower_bound(&self.levels, price.bits);
        if idx < self.levels.len() && self.levels[idx].price.bits == price.bits {
            Some(self.levels[idx].quantity)
        } else {
            None
        }
    }

    /// Stores `quantity` under `price`, replacing what was there.
    pub fn set(&mut self, price: Fixed64, quantity: Fixed64)
        ensures
            final(self)@ == old(self)@.insert(price.bits, quantity.bits),
    {
        let mut taken = BookSide::new();
        std::mem::swap(self, &mut taken);
        proof {
            use_type_invariant(&taken);
        }
        let ghost before = taken.contents@;
        let ghost was = taken.levels@;
        let mut levels = taken.levels;
        let idx = lower_bound(&levels, price.bits);
        let level = Level { price, quantity };
        if idx < levels.len() && levels[idx].price.bits == price.bits {
            levels.set(idx, level);
            proof {
                let after = before.insert(price.bits, quantity.bits);
                assert forall|k: u64| #[trigger] after.contains_key(k) implies exists|i: int|
                    #![trigger levels@[i]]
                    0 <= i < levels@.len() && levels@[i].price.bits == k by {
                    if k != price.bits {
                        let i = choose|i: int|
                            #![trigger was[i]]
                            0 <= i < was.len() && was[i].price.bits == k;
                        assert(levels@[i].price.bits == k);
                    } else {
                        assert(levels@[idx as int].price.bits == k);
                    }
                }
            }
        } else {
            levels.insert(idx, level);
            proof {
                let after = before.insert(price.bits, quantity.bits);
                assert forall|i: int, j: int| 0 <= i < j < levels@.len() implies levels@[i].price.bits
                    < levels@[j].price.bits by {
                    let a = if i < idx { i } else { i - 1 };
                    let b = if j < idx { j } else { j - 1 };
                    if i != idx && j != idx {
                        assert(was[a].price.bits < was[b].price.bits);
                    }
                }
                assert forall|i: int|
                    #![trigger levels@[i]]
                    0 <= i < levels@.len() implies after.contains_key(levels@[i].price.bits)
                    && after[levels@[i].price.bits] == levels@[i].quantity.bits by {
                    if i < idx {
                        assert(levels@[i] == was[i]);
                    } else if i > idx {
                        assert(levels@[i] == was[i - 1]);
                    }
                }
                assert forall|k: u64| #[trigger] after.contains_key(k) implies exists|i: int|
                    #![trigger levels@[i]]
                    0 <= i < levels@.len() && levels@[i].price.bits == k by {
                    if k != price.bits {
                        let i = choose|i: int|
                            #![trigger was[i]]
                            0 <= i < was.len() && was[i].price.bits == k;
                        if i < idx {
                            assert(levels@[i].price.bits == k);
                        } else {
                            assert(levels@[i + 1].price.bits == k);
                        }
                    } else {
                        assert(levels@[idx as int].price.bits == k);
                    }
                }
            }
        }
        *self = BookSide { levels, contents: Ghost(before.insert(price.bits, quantity.bits)) };
    }

    /// Removes `price` and its quantity; a price that is not there is
    /// left alone.
    pub fn remove(&mut self, price: Fixed64)
        ensures
            final(self)@ == old(self)@.remove(price.bits),
    {
        let mut taken = BookSide::new();
        std::mem::swap(self, &mut taken);
        proof {
            use_type_invariant(&taken);
        }
        let ghost before = taken.contents@;
        let ghost was = taken.levels@;
        let mut levels = taken.levels;
        let idx = lower_bound(&levels, price.bits);
        if idx < levels.len() && levels[idx].price.bits == price.bits {
            levels.remove(idx);
            proof {
                let after = before.remove(price.bits);
                assert forall|i: int, j: int| 0 <= i < j < levels@.len() implies levels@[i].price.bits
                    < levels@[j].price.bits by {
                    let a = if i < idx { i } else { i + 1 };
                    let b = if j < idx { j } else { j + 1 };
                    assert(was[a].price.bits < was[b].price.bits);
                }
                assert forall|i: int|
                    #![trigger levels@[i]]
                    0 <= i < levels@.len() implies after.contains_key(levels@[i].price.bits)
                    && after[levels@[i].price.bits] == levels@[i].quantity.bits by {
                    if i < idx {
                        assert(levels@[i] == was[i]);
                        assert(was[i].price.bits < was[idx as int].price.bits);
                    } else {
                        assert(levels@[i] == was[i + 1]);
                        assert(was[idx as int].price.bits < was[i + 1].price.bits);
                    }
                }
                assert forall|k: u64| #[trigger] after.contains_key(k) implies exists|i: int|
                    #![trigger levels@[i]]
                    0 <= i < levels@.len() && levels@[i].price.bits == k by {
                    let i = choose|i: int|
                        #![trigger was[i]]
                        0 <= i < was.len() && was[i].price.bits == k;
                    if i < idx {
                        assert(levels@[i].price.bits == k);
                    } else {
                        assert(levels@[i - 1].price.bits == k);
                    }
                }
            }
            *self = BookSide { levels, contents: Ghost(before.remove(price.bits)) };
        } else {
            proof {
                assert(!before.contains_key(price.bits)) by {
                    if before.contains_key(price.bits) {
                        let i = choose|i: int|
                            #![trigger was[i]]
                            0 <= i < was.len() && was[i].price.bits == price.bits;
                        assert(was[i].price.bits == price.bits);
                    }
                }
                assert(before.remove(price.bits) =~= before);
            }
            *self = BookSide { levels, contents: Ghost(before) };
        }
    }

    /// Applies one level of an update: a zero quantity removes the price,
    /// any other quantity is stored under it.
    pub fn apply(&mut self, level: Level)
        ensures
            final(self)@ == level_applied(old(self)@, level),
    {
        if level.quantity.bits == 0 {
            self.remove(level.price);
        } else {
            self.set(level.price, level.quantity);
        }
    }

    /// Stores each level under its price, in order, zero quantities
    /// included.
    pub fn store_all(&mut self, levels: &Vec<Level>)
        ensures
            final(self)@ == levels_stored(old(self)@, levels@),
    {
        let mut i: usize = 0;
        while i < levels.len()
            invariant
                i <= levels.len(),
                self@ == levels_stored(old(self)@, levels@.subrange(0, i as int)),
            decreases levels.len() - i,
        {
            proof {
                assert(levels@.subrange(0, i + 1).drop_last() =~= levels@.subrange(0, i as int));
            }
            self.set(levels[i].price, levels[i].quantity);
            i = i + 1;
        }
        proof {
            assert(levels@.subrange(0, levels.len() as int) =~= levels@);
        }
    }

    /// Applies the levels of an update in order.
    pub fn apply_all(&mut self, levels: &Vec<Level>)
        ensures
            final(self)@ == levels_applied(old(self)@, levels@),
    {
        let mut i: usize = 0;
        while i < levels.len()
            invariant
                i <= levels.len(),
                self@ == levels_applied(old(self)@, levels@.subrange(0, i as int)),
            decreases levels.len() - i,
        {
            proof {
                assert(levels@.subrange(0, i + 1).drop_last() =~= levels@.subrange(0, i as int));
            }
            self.apply(levels[i]);
            i = i + 1;
        }
        proof {
            assert(levels@.subrange(0, levels.len() as int) =~= levels@);
        }
    }

    /// The level with the lowest price, `None` for an empty side.
    pub fn lowest(&self) -> (r: Option<Level>)
        ensures
            r == lowest_level(self@),
            match r {
                Some(level) => is_lowest(self@, level.price.bits) && self@[level.price.bits]
                    == level.quantity.bits,
                None => self@ == Map::<u64, u64>::empty(),
            },
    {
        proof {
            use_type_invariant(self);
        }
        if self.levels.len() == 0 {
            proof {
                assert(self@ =~= Map::<u64, u64>::empty());
            }
            None
        } else {
            let level = self.levels[0];
            proof {
                assert forall|j: u64| #[trigger] self@.contains_key(j) implies level.price.bits
                    <= j by {
                    let i = choose|i: int|
                        #![trigger self.levels@[i]]
                        0 <= i < self.levels@.len() && self.levels@[i].price.bits == j;
                    assert(self.levels@[i].price.bits == j);
                }
                assert(self@.contains_key(self.levels@[0].price.bits));
                assert(is_lowest(self@, level.price.bits));
                let k = choose|k: u64| is_lowest(self@, k);
                assert(k == level.price.bits);
            }
            Some(level)
        }
    }

    /// The level with the highest price, `None` for an empty side.
    pub fn highest(&self) -> (r: Option<Level>)
        ensures
            r == highest_level(self@),
            match r {
                Some(level) => is_highest(self@, level.price.bits) && self@[level.price.bits]
                    == level.quantity.bits,
                None => self@ == Map::<u64, u64>::empty(),
            },
    {
        proof {
            use_type_invariant(self);
        }
        let n = self.levels.len();
        if n == 0 {
            proof {
                assert(self@ =~= Map::<u64, u64>::empty());
            }
            None
        } else {
            let level = self.levels[n - 1];
            proof {
                assert forall|j: u64| #[trigger] self@.contains_key(j) implies j
                    <= level.price.bits by {
                    let i = choose|i: int|
                        #![trigger self.levels@[i]]
                        0 <= i < self.levels@.len() && self.levels@[i].price.bits == j;
                    assert(self.levels@[i].price.bits == j);
                }
                assert(self@.contains_key(self.levels@[n - 1].price.bits));
                assert(is_highest(self@, level.price.bits));
                let k = choose|k: u64| is_highest(self@, k);
                assert(k == level.price.bits);
            }
            Some(level)
        }
    }

    /// The levels in ascending price order. They hold exactly the entries
    /// of the side.
    pub fn to_levels(&self) -> (r: Vec<Level>)
        ensures
            r@ == price_order(self@),
            strictly_ascending(r@),
            lists(r@, self@),
    {
        proof {
            use_type_invariant(self);
            lemma_is_price_order(self.levels@, self@);
        }
        let mut out: Vec<Level> = Vec::new();
        let mut i: usize = 0;
        while i < self.levels.len()
            invariant
                i <= self.levels.len(),
                out@ == self.levels@.subrange(0, i as int),
            decreases self.levels.len() - i,
        {
            out.push(self.levels[i]);
            i = i + 1;
            proof {
                assert(out@ =~= self.levels@.subrange(0, i as int));
            }
        }
        proof {
            assert(out@ =~= self.levels@);
        }
        out
    }
}

impl BookSide {
    /// Cost of taking `volume` from this side, best level first; see
    /// [`sweep_cost`].
    pub fn sweep(&self, volume: Fixed64, highest_first: bool) -> (r: Fixed64)
        ensures
            r.bits == sweep_cost(best_first(self@, highest_first), volume.bits),
    {
        proof {
            use_type_invariant(self);
            lemma_is_price_order(self.levels@, self@);
        }
        let n = self.levels.len();
        let ghost order = best_first(self@, highest_first);
        let mut cost = Fixed64::zero();
        let mut running = volume;
        let mut k: usize = 0;
        proof {
            assert(order.subrange(0, n as int) =~= order);
        }
        while k < n
            invariant
                n == self.levels.len(),
                self.levels@ == price_order(self@),
                order == best_first(self@, highest_first),
                k <= n,
                sweep_cost(order, volume.bits) == sum_bits(
                    cost.bits,
                    sweep_cost(order.subrange(k as int, n as int), running.bits),
                ),
            decreases n - k,
        {
            let idx = if highest_first { n - 1 - k } else { k };
            let level = self.levels[idx];
            let ghost rest = order.subrange(k as int, n as int);
            proof {
                assert(rest.first() == level);
                assert(rest.drop_first() =~= order.subrange(k + 1, n as int));
            }
            if running.bits >= level.quantity.bits {
                let part = level.price.saturating_mul(level.quantity);
                cost = cost.saturating_add(part);
                running = running.saturating_sub(level.quantity);
                k = k + 1;
            } else {
                let part = level.price.saturating_mul(running);
                return cost.saturating_add(part);
            }
        }
        proof {
            assert(order.subrange(n as int, n as int).len() == 0);
        }
        cost
    }
}

impl Clone for BookSide {
    fn clone(&self) -> (r: BookSide)
        ensures
            r@ == self@,
    {
        proof {
            use_type_invariant(self);
        }
        let levels = self.to_levels();
        BookSide { levels, contents: Ghost(self.contents@) }
    }
}

} // verus!
