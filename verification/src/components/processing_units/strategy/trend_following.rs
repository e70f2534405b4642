//! A strategy that watches the book of one symbol.

use crate::objects::Objects;
use crate::objects::fixed_point::Fixed64;
use crate::objects::market::Market;
use crate::objects::orderbook::OrderbookV1;
use crate::utils::text::same_text;
use vstd::prelude::*;

verus! {

/// Raw bits of the volume that the weighted spread is read for: a tenth,
/// rounded down.
pub const WATCHED_VOLUME_BITS: u64 = 429496729;

/// The symbol whose book is watched.
pub open spec fn watched_symbol() -> Seq<char> {
    "BTCUSDT"@
}

/// What the strategy reads off a book.
#[derive(Clone, Copy, Debug, PartialEq, Eq, Structural)]
pub struct Figures {
    pub spread: Fixed64,
    pub weighted_spread: Fixed64,
    pub mid: Fixed64,
    pub weighted_mid: Fixed64,
}

/// The strategy; it keeps no state of its own.
pub struct TrendFollowing {}

impl TrendFollowing {
    pub fn new() -> (r: TrendFollowing) {
        TrendFollowing {  }
    }

    /// Whether the object is an update of the watched symbol.
    pub fn watches(&self, obj: &Objects) -> (r: bool)
        ensures
            r == (obj is OrderbookUpdateV1 && obj->OrderbookUpdateV1_0.symbol@ == watched_symbol()),
    {
        match obj {
            Objects::OrderbookUpdateV1(update) => same_text(update.symbol.as_str(), "BTCUSDT"),
            _ => false,
        }
    }

    /// The figures of a book: spread, weighted spread for the watched
    /// volume, mid and weighted mid.
    pub fn figures(&self, book: &OrderbookV1) -> (r: Figures)
        ensures
            r.spread.bits == book@.spread(),
            r.weighted_spread.bits == book@.weighted_spread(WATCHED_VOLUME_BITS),
            r.mid.bits == book@.mid(),
            r.weighted_mid.bits == book@.weighted_mid(),
    {
        Figures {
            spread: book.spread(),
            weighted_spread: book.weighted_spread(Fixed64::from_bits(WATCHED_VOLUME_BITS)),
            mid: book.mid(),
            weighted_mid: book.weighted_mid(),
        }
    }

    /// The figures of the watched book, where the object is an update of
    /// the watched symbol and the market holds its book.
    pub fn observe(&self, obj: &Objects, market: &Market) -> (r: Option<Figures>)
        ensures
            r is Some <==> obj is OrderbookUpdateV1 && obj->OrderbookUpdateV1_0.symbol@
                == watched_symbol() && market.books().contains_key(watched_symbol()),
            r is Some ==> {
                let book = market.books()[watched_symbol()];
                &&& r->0.spread.bits == book.spread()
                &&& r->0.weighted_spread.bits == book.weighted_spread(WATCHED_VOLUME_BITS)
                &&& r->0.mid.bits == book.mid()
                &&& r->0.weighted_mid.bits == book.weighted_mid()
            },
    {
        if self.watches(obj) {
            match market.get_book("BTCUSDT") {
                Some(book) => Some(self.figures(book)),
                None => None,
            }
        } else {
            None
        }
    }

    /// Runs the strategy on one object. It produces no object and never
    /// completes the stage.
    pub fn process(&mut self, obj: &Objects, market: &Market) -> (r: Result<
        (Option<Objects>, bool),
        String,
    >)
        ensures
            r is Ok,
            r->Ok_0.0 is None,
            !r->Ok_0.1,
    {
        Ok((None, false))
    }
}

} // verus!
