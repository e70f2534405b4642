//! What the normalized objects share: the identifier type of their
//! headers, and the decimal text forms of prices, quantities and book sides.

use crate::objects::book_side::{
    best_first, levels_stored, lists, price_order, strictly_ascending, BookSide,
};
use crate::objects::fixed_point::{fixed_from_decimal, fixed_to_decimal, Fixed64};
use crate::objects::level::Level;
use uuid::Uuid;
use vstd::prelude::*;

verus! {

/// `uuid::Uuid`: the ids of a header, carried as they are.
#[verifier::external_type_specification]
#[verifier::external_body]
pub struct ExUuid(uuid::Uuid);

/// The header that every normalized object carries, with its texts as
/// sequences of characters.
pub struct HeaderView {
    pub id: Uuid,
    pub timestamp: i64,
    pub sequence_nr: u64,
    pub correlation_id: Uuid,
    pub source: Seq<char>,
    pub exchange: Seq<char>,
    pub asset_type: Seq<char>,
}

/// A copy of a vector of levels.
pub fn copy_levels(levels: &Vec<Level>) -> (r: Vec<Level>)
    ensures
        r@ == levels@,
{
    let mut out: Vec<Level> = Vec::new();
    let mut i: usize = 0;
    while i < levels.len()
        invariant
            i <= levels.len(),
            out@ == levels@.subrange(0, i as int),
        decreases levels.len() - i,
    {
        out.push(levels[i]);
        i = i + 1;
        proof {
            assert(out@ =~= levels@.subrange(0, i as int));
        }
    }
    proof {
        assert(out@ =~= levels@);
    }
    out
}

/// The level that a pair of decimal texts stands for, `None` where either
/// text is refused.
pub open spec fn parsed_level(price: Seq<char>, quantity: Seq<char>) -> Option<Level> {
    match (fixed_from_decimal(price), fixed_from_decimal(quantity)) {
        (Some(p), Some(q)) => Some(Level { price: Fixed64 { bits: p }, quantity: Fixed64 { bits: q } }),
        _ => None,
    }
}

/// The levels that a list of decimal text pairs stands for, in order; a
/// pair with a refused text is left out.
pub open spec fn parsed_levels(pairs: Seq<(Seq<char>, Seq<char>)>) -> Seq<Level>
    decreases pairs.len(),
{
    if pairs.len() == 0 {
        Seq::empty()
    } else {
        let head = parsed_levels(pairs.drop_last());
        match parsed_level(pairs.last().0, pairs.last().1) {
            Some(level) => head.push(level),
            None => head,
        }
    }
}

/// Parses one level from its two decimal texts.
pub fn parse_level(price: &str, quantity: &str) -> (r: Option<Level>)
    ensures
        r == parsed_level(price@, quantity@),
{
    match Fixed64::from_str(price) {
        Ok(p) => match Fixed64::from_str(quantity) {
            Ok(q) => Some(Level { price: p, quantity: q }),
            Err(_) => None,
        },
        Err(_) => None,
    }
}

/// The decimal text of a value, for the wire.
pub fn serialize_fixed(value: &Fixed64) -> (r: String)
    ensures
        r@ == fixed_to_decimal(value.bits),
{
    value.to_string()
}

/// The value that a decimal text from the wire stands for. A refused text
/// gives zero.
pub fn deserialize_fixed(text: &str) -> (r: Fixed64)
    ensures
        r.bits == match fixed_from_decimal(text@) {
            Some(bits) => bits,
            None => 0u64,
        },
{
    match Fixed64::from_str(text) {
        Ok(value) => value,
        Err(_) => Fixed64::zero(),
    }
}

/// The decimal texts of a sequence of levels, kept in order.
pub open spec fn levels_text(levels: Seq<Level>) -> Seq<(Seq<char>, Seq<char>)> {
    Seq::new(
        levels.len(),
        |i: int| (fixed_to_decimal(levels[i].price.bits), fixed_to_decimal(levels[i].quantity.bits)),
    )
}

/// The texts of a vector of pairs.
pub open spec fn pairs_text(pairs: Seq<(String, String)>) -> Seq<(Seq<char>, Seq<char>)> {
    Seq::new(pairs.len(), |i: int| (pairs[i].0@, pairs[i].1@))
}

fn serialize_side(levels: &BookSide, highest_first: bool) -> (r: Vec<(String, String)>)
    ensures
        pairs_text(r@) == levels_text(best_first(levels@, highest_first)),
{
    let ordered = levels.to_levels();
    let n = ordered.len();
    let ghost order = best_first(levels@, highest_first);
    let mut out: Vec<(String, String)> = Vec::new();
    let mut k: usize = 0;
    while k < n
        invariant
            n == ordered.len(),
            ordered@ == price_order(levels@),
            order == best_first(levels@, highest_first),
            k <= n,
            out.len() == k,
            forall|i: int|
                0 <= i < k ==> (#[trigger] out@[i]).0@ == fixed_to_decimal(order[i].price.bits)
                    && out@[i].1@ == fixed_to_decimal(order[i].quantity.bits),
        decreases n - k,
    {
        let idx = if highest_first { n - 1 - k } else { k };
        let level = ordered[idx];
        out.push((level.price.to_string(), level.quantity.to_string()));
        k = k + 1;
    }
    proof {
        assert(pairs_text(out@) =~= levels_text(order));
    }
    out
}

/// The entries of the bid side as decimal texts, highest price first.
pub fn serialize_bids(levels: &BookSide) -> (r: Vec<(String, String)>)
    ensures
        pairs_text(r@) == levels_text(best_first(levels@, true)),
{
    serialize_side(levels, true)
}

/// The entries of the ask side as decimal texts, lowest price first.
pub fn serialize_asks(levels: &BookSide) -> (r: Vec<(String, String)>)
    ensures
        pairs_text(r@) == levels_text(best_first(levels@, false)),
{
    serialize_side(levels, false)
}

/// Builds a side from decimal text pairs. Each pair is stored under its
/// price, a later one replacing an earlier one; a pair with a refused text
/// is left out.
pub fn deserialize_side(pairs: &Vec<(String, String)>) -> (r: BookSide)
    ensures
        r@ == levels_stored(Map::<u64, u64>::empty(), parsed_levels(pairs_text(pairs@))),
{
    let mut side = BookSide::new();
    let ghost text = pairs_text(pairs@);
    let mut i: usize = 0;
    while i < pairs.len()
        invariant
            i <= pairs.len(),
            text == pairs_text(pairs@),
            side@ == levels_stored(
                Map::<u64, u64>::empty(),
                parsed_levels(text.subrange(0, i as int)),
            ),
        decreases pairs.len() - i,
    {
        let ghost before = parsed_levels(text.subrange(0, i as int));
        proof {
            assert(text.subrange(0, i + 1).drop_last() =~= text.subrange(0, i as int));
        }
        match parse_level(pairs[i].0.as_str(), pairs[i].1.as_str()) {
            Some(level) => {
                side.set(level.price, level.quantity);
                proof {
                    assert(before.push(level).drop_last() =~= before);
                }
            },
            None => {},
        }
        i = i + 1;
    }
    proof {
        assert(text.subrange(0, pairs.len() as int) =~= text);
    }
    side
}

/// The bid side that a map of decimal texts stands for.
pub fn deserialize_bids(pairs: &Vec<(String, String)>) -> (r: BookSide)
    ensures
        r@ == levels_stored(Map::<u64, u64>::empty(), parsed_levels(pairs_text(pairs@))),
{
    deserialize_side(pairs)
}

/// The ask side that a map of decimal texts stands for.
pub fn deserialize_asks(pairs: &Vec<(String, String)>) -> (r: BookSide)
    ensures
        r@ == levels_stored(Map::<u64, u64>::empty(), parsed_levels(pairs_text(pairs@))),
{
    deserialize_side(pairs)
}

/// The text that is printed for the bits parses back to the same bits.
pub open spec fn reads_back(bits: u64) -> bool {
    fixed_from_decimal(fixed_to_decimal(bits)) == Some(bits)
}

/// Price and quantity of every level read back from their texts.
pub open spec fn all_read_back(levels: Seq<Level>) -> bool {
    forall|i: int|
        0 <= i < levels.len() ==> reads_back((#[trigger] levels[i]).price.bits) && reads_back(
            levels[i].quantity.bits,
        )
}

/// No price occurs twice.
pub open spec fn distinct_prices(levels: Seq<Level>) -> bool {
    forall|i: int, j: int|
        0 <= i < j < levels.len() ==> (#[trigger] levels[i]).price.bits != (
        #[trigger] levels[j]).price.bits
}

/// Levels whose texts read back are parsed from their texts as they
/// were, in the same order.
pub proof fn law_levels_text_reads_back(levels: Seq<Level>)
    requires
        all_read_back(levels),
    ensures
        parsed_levels(levels_text(levels)) == levels,
    decreases levels.len(),
{
    if levels.len() == 0 {
        assert(parsed_levels(levels_text(levels)) =~= levels);
    } else {
        let head = levels.drop_last();
        assert(levels_text(levels).drop_last() =~= levels_text(head));
        assert(all_read_back(head)) by {
            assert forall|i: int| 0 <= i < head.len() implies reads_back(
                (#[trigger] head[i]).price.bits,
            ) && reads_back(head[i].quantity.bits) by {
                assert(head[i] == levels[i]);
            }
        }
        law_levels_text_reads_back(head);
        let last = levels.last();
        assert(levels[levels.len() - 1] == last);
        assert(parsed_level(levels_text(levels).last().0, levels_text(levels).last().1) == Some(
            last,
        ));
        assert(head.push(last) =~= levels);
    }
}

/// Storing the levels of a side, in any order in which no price occurs
/// twice, gives the entries of the side.
pub proof fn law_stored_levels_are_the_side(levels: Seq<Level>, m: Map<u64, u64>)
    requires
        distinct_prices(levels),
        lists(levels, m),
    ensures
        levels_stored(Map::<u64, u64>::empty(), levels) == m,
    decreases levels.len(),
{
    if levels.len() == 0 {
        assert(m =~= Map::<u64, u64>::empty());
    } else {
        let head = levels.drop_last();
        let last = levels.last();
        let rest = m.remove(last.price.bits);
        assert(levels[levels.len() - 1] == last);
        assert(distinct_prices(head)) by {
            assert forall|i: int, j: int| 0 <= i < j < head.len() implies (
            #[trigger] head[i]).price.bits != (#[trigger] head[j]).price.bits by {
                assert(head[i] == levels[i] && head[j] == levels[j]);
            }
        }
        assert(lists(head, rest)) by {
            assert forall|i: int| #![trigger head[i]] 0 <= i < head.len() implies rest.contains_key(
                head[i].price.bits,
            ) && rest[head[i].price.bits] == head[i].quantity.bits by {
                assert(head[i] == levels[i]);
            }
            assert forall|k: u64| #[trigger] rest.contains_key(k) implies exists|i: int|
                #![trigger head[i]]
                0 <= i < head.len() && head[i].price.bits == k by {
                let i = choose|i: int|
                    #![trigger levels[i]]
                    0 <= i < levels.len() && levels[i].price.bits == k;
                assert(head[i] == levels[i]);
            }
        }
        law_stored_levels_are_the_side(head, rest);
        assert(rest.insert(last.price.bits, last.quantity.bits) =~= m);
    }
}

/// A side that is written as text, best level first, and read back is
/// the same side, provided that the texts of its prices and quantities
/// read back.
pub proof fn law_side_text_reads_back(
    ascending: Seq<Level>,
    m: Map<u64, u64>,
    highest_first: bool,
)
    requires
        strictly_ascending(ascending),
        lists(ascending, m),
        all_read_back(ascending),
    ensures
        levels_stored(
            Map::<u64, u64>::empty(),
            parsed_levels(
                levels_text(
                    if highest_first {
                        ascending.reverse()
                    } else {
                        ascending
                    },
                ),
            ),
        ) == m,
{
    let order = if highest_first {
        ascending.reverse()
    } else {
        ascending
    };
    let n = ascending.len() as int;
    assert(all_read_back(order)) by {
        assert forall|i: int| 0 <= i < order.len() implies reads_back(
            (#[trigger] order[i]).price.bits,
        ) && reads_back(order[i].quantity.bits) by {
            if highest_first {
                assert(order[i] == ascending[n - 1 - i]);
            }
        }
    }
    assert(distinct_prices(order)) by {
        assert forall|i: int, j: int| 0 <= i < j < order.len() implies (
        #[trigger] order[i]).price.bits != (#[trigger] order[j]).price.bits by {
            if highest_first {
                assert(order[i] == ascending[n - 1 - i] && order[j] == ascending[n - 1 - j]);
                assert(ascending[n - 1 - j].price.bits < ascending[n - 1 - i].price.bits);
            } else {
                assert(ascending[i].price.bits < ascending[j].price.bits);
            }
        }
    }
    assert(lists(order, m)) by {
        assert forall|i: int| #![trigger order[i]] 0 <= i < order.len() implies m.contains_key(
            order[i].price.bits,
        ) && m[order[i].price.bits] == order[i].quantity.bits by {
            if highest_first {
                assert(order[i] == ascending[n - 1 - i]);
            }
        }
        assert forall|k: u64| #[trigger] m.contains_key(k) implies exists|i: int|
            #![trigger order[i]]
            0 <= i < order.len() && order[i].price.bits == k by {
            let i = choose|i: int|
                #![trigger ascending[i]]
                0 <= i < ascending.len() && ascending[i].price.bits == k;
            if highest_first {
                assert(order[n - 1 - i] == ascending[i]);
            } else {
                assert(order[i] == ascending[i]);
            }
        }
    }
    law_levels_text_reads_back(order);
    law_stored_levels_are_the_side(order, m);
}

/// What [`serialize_bids`] or [`serialize_asks`] writes of a side,
/// [`deserialize_bids`] or [`deserialize_asks`] reads back as the same
/// side, provided that the texts of its prices and quantities read back.
/// The side is given by its entries; it has a price order, as every side
/// that is held has.
pub proof fn law_written_side_reads_back(m: Map<u64, u64>, highest_first: bool)
    requires
        strictly_ascending(price_order(m)),
        lists(price_order(m), m),
        all_read_back(price_order(m)),
    ensures
        levels_stored(
            Map::<u64, u64>::empty(),
            parsed_levels(levels_text(best_first(m, highest_first))),
        ) == m,
{
    law_side_text_reads_back(price_order(m), m, highest_first);
}

} // verus!
