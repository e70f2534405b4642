//! The order book of one symbol: the state that a snapshot starts and that
//! incremental updates move forward, and the figures read off it.

use crate::components::sources::binance::model::{asks_text, bids_text, BinanceOrderBookEvent};
use crate::objects::book_side::{
    best_first, highest_level, is_highest, is_lowest, level_applied, levels_applied,
    levels_stored, lowest_level, sweep_cost, BookSide,
};
use crate::objects::common::{parsed_levels, HeaderView};
use crate::objects::fixed_point::{
    difference_bits, product_bits, quotient_bits, sum_bits, Fixed64, ONE_BITS,
};
use crate::objects::level::Level;
use crate::objects::orderbook_update::{parse_asks, parse_bids, OrderbookUpdateV1, UpdateView};
use uuid::Uuid;
use vstd::prelude::*;

verus! {

/// An update that lies further behind the book than this many ids marks
/// the book as stale.
pub const STALE_GAP: u64 = 20000;

/// The health of a book.
#[derive(Clone, Copy, Debug, PartialEq, Eq, Structural)]
pub enum OrderbookStatus {
    Ticking,
    Crossed,
    Error,
    Stale,
}

/// The book of one symbol: its header, the last update id that it
/// reflects, its health, and its two sides.
pub struct OrderbookV1 {
    pub id: Uuid,
    pub timestamp: i64,
    pub sequence_nr: u64,
    pub correlation_id: Uuid,
    pub source: String,
    pub exchange: String,
    pub asset_type: String,
    pub symbol: String,
    pub first_update: bool,
    pub last_update_id: u64,
    pub status: OrderbookStatus,
    pub bids: BookSide,
    pub asks: BookSide,
}

/// A book as a mathematical value: each side is the map from the raw bits
/// of a price to the raw bits of the quantity at that price.
pub struct BookView {
    pub header: HeaderView,
    pub symbol: Seq<char>,
    pub first_update: bool,
    pub last_update_id: u64,
    pub status: OrderbookStatus,
    pub bids: Map<u64, u64>,
    pub asks: Map<u64, u64>,
}

impl View for OrderbookV1 {
    type V = BookView;

    open spec fn view(&self) -> BookView {
        BookView {
            header: HeaderView {
                id: self.id,
                timestamp: self.timestamp,
                sequence_nr: self.sequence_nr,
                correlation_id: self.correlation_id,
                source: self.source@,
                exchange: self.exchange@,
                asset_type: self.asset_type@,
            },
            symbol: self.symbol@,
            first_update: self.first_update,
            last_update_id: self.last_update_id,
            status: self.status,
            bids: self.bids@,
            asks: self.asks@,
        }
    }
}

/// Some bid is at or above some ask.
pub open spec fn crossed(bids: Map<u64, u64>, asks: Map<u64, u64>) -> bool {
    exists|b: u64, a: u64| #[trigger] bids.contains_key(b) && #[trigger] asks.contains_key(a) && b >= a
}

/// The update ends at or before the last id that the book reflects.
pub open spec fn behind(book: BookView, update: UpdateView) -> bool {
    update.final_update_id <= book.last_update_id
}

/// The update is behind the book by more than the stale gap.
pub open spec fn far_behind(book: BookView, update: UpdateView) -> bool {
    behind(book, update) && book.last_update_id - update.final_update_id > STALE_GAP
}

/// The update continues the book: the first update after a snapshot must
/// reach back to the id after the snapshot's last, every later one must
/// start exactly there.
pub open spec fn in_sequence(book: BookView, update: UpdateView) -> bool {
    if book.first_update {
        update.first_update_id <= book.last_update_id + 1 && update.final_update_id
            > book.last_update_id
    } else {
        update.first_update_id == book.last_update_id + 1
    }
}

/// The update's levels are applied to the book.
pub open spec fn applies(book: BookView, update: UpdateView) -> bool {
    !behind(book, update) && in_sequence(book, update)
}

/// The book after an update.
///
/// An update behind the book is discarded, and marks the book stale where
/// it is far behind. An update that does not continue the book is
/// discarded and marks the book as in error. Any other update is applied
/// level by level; the book then reflects the update's final id, is past
/// its first update, and is crossed where some bid is at or above some
/// ask, ticking otherwise. A book with a side without levels is never
/// crossed.
pub open spec fn updated(book: BookView, update: UpdateView) -> BookView {
    if behind(book, update) {
        if far_behind(book, update) {
            BookView { status: OrderbookStatus::Stale, ..book }
        } else {
            book
        }
    } else if !in_sequence(book, update) {
        BookView { status: OrderbookStatus::Error, ..book }
    } else {
        let bids = levels_applied(book.bids, update.bids);
        let asks = levels_applied(book.asks, update.asks);
        BookView {
            first_update: false,
            last_update_id: update.final_update_id,
            status: status_of(bids, asks),
            bids,
            asks,
            ..book
        }
    }
}

/// The book after a sequence of updates, taken in order.
pub open spec fn updated_all(book: BookView, updates: Seq<UpdateView>) -> BookView
    decreases updates.len(),
{
    if updates.len() == 0 {
        book
    } else {
        updated(updated_all(book, updates.drop_last()), updates.last())
    }
}

/// The health of a book whose sides have just been set: crossed where
/// some bid is at or above some ask, ticking otherwise.
pub open spec fn status_of(bids: Map<u64, u64>, asks: Map<u64, u64>) -> OrderbookStatus {
    if crossed(bids, asks) {
        OrderbookStatus::Crossed
    } else {
        OrderbookStatus::Ticking
    }
}

/// A ticking book has every bid below every ask. Every book that is built
/// from a snapshot is so, and every update keeps it so.
pub open spec fn ticking_means_uncrossed(book: BookView) -> bool {
    book.status == OrderbookStatus::Ticking ==> !crossed(book.bids, book.asks)
}

/// Price and quantity of a best level, zeros where the side is empty.
pub open spec fn level_or_zero(best: Option<Level>) -> (Fixed64, Fixed64) {
    match best {
        Some(level) => (level.price, level.quantity),
        None => (Fixed64 { bits: 0 }, Fixed64 { bits: 0 }),
    }
}

/// Share of the best bid quantity in the two best quantities together,
/// zero where both are zero.
pub open spec fn imbalance_bits(bid_quantity: u64, ask_quantity: u64) -> u64 {
    if sum_bits(bid_quantity, ask_quantity) == 0 {
        0
    } else {
        quotient_bits(bid_quantity, sum_bits(bid_quantity, ask_quantity))
    }
}

impl BookView {
    /// Price and quantity of the highest bid, zeros where there is none.
    pub open spec fn best_bid(self) -> (Fixed64, Fixed64) {
        level_or_zero(highest_level(self.bids))
    }

    /// Price and quantity of the lowest ask, zeros where there is none.
    pub open spec fn best_ask(self) -> (Fixed64, Fixed64) {
        level_or_zero(lowest_level(self.asks))
    }

    /// Best ask price less best bid price, zero where the bid is not
    /// below the ask.
    pub open spec fn spread(self) -> u64 {
        difference_bits(self.best_ask().0.bits, self.best_bid().0.bits)
    }

    /// Half of the sum of the two best prices.
    pub open spec fn mid(self) -> u64 {
        (sum_bits(self.best_ask().0.bits, self.best_bid().0.bits) / 2) as u64
    }

    /// Share of the best bid quantity in the two best quantities together.
    pub open spec fn imbalance(self) -> u64 {
        imbalance_bits(self.best_bid().1.bits, self.best_ask().1.bits)
    }

    /// The best prices weighted by the imbalance: the ask by the
    /// imbalance, the bid by what the imbalance leaves of one.
    pub open spec fn weighted_mid(self) -> u64 {
        sum_bits(
            product_bits(self.imbalance(), self.best_ask().0.bits),
            product_bits(difference_bits(ONE_BITS, self.imbalance()), self.best_bid().0.bits),
        )
    }

    /// The mid price plus the imbalance.
    pub open spec fn microprice(self) -> u64 {
        sum_bits(self.mid(), self.imbalance())
    }

    /// Cost of buying `volume` from the asks less the proceeds of selling
    /// it to the bids, each side walked from its best level; see
    /// [`sweep_cost`].
    pub open spec fn weighted_spread(self, volume: u64) -> u64 {
        difference_bits(
            sweep_cost(best_first(self.asks, false), volume),
            sweep_cost(best_first(self.bids, true), volume),
        )
    }
}

/// One level of an update changes one price and no other: a zero
/// quantity removes exactly that price, any other quantity is stored under
/// it, and every other price keeps its presence and its quantity.
pub proof fn law_level_changes_one_price(m: Map<u64, u64>, level: Level)
    ensures
        level.quantity.bits == 0 ==> !level_applied(m, level).contains_key(level.price.bits),
        level.quantity.bits != 0 ==> level_applied(m, level).contains_key(level.price.bits)
            && level_applied(m, level)[level.price.bits] == level.quantity.bits,
        forall|k: u64|
            k != level.price.bits ==> (#[trigger] level_applied(m, level).contains_key(k)
                == m.contains_key(k)),
        forall|k: u64|
            k != level.price.bits && m.contains_key(k) ==> #[trigger] level_applied(m, level)[k]
                == m[k],
{
}

/// An applied update leaves the book at the update's final id; once the
/// first update is past, an update is applied only if it starts at the id
/// after the book's last. An update that is not applied leaves the last id
/// alone.
pub proof fn law_update_ids_advance(book: BookView, update: UpdateView)
    ensures
        applies(book, update) ==> updated(book, update).last_update_id == update.final_update_id,
        applies(book, update) ==> !updated(book, update).first_update,
        applies(book, update) && !book.first_update ==> update.first_update_id
            == book.last_update_id + 1,
        !applies(book, update) ==> updated(book, update).last_update_id == book.last_update_id,
        !applies(book, update) ==> updated(book, update).first_update == book.first_update,
{
}

/// The same along any sequence of updates: at every step, the update that
/// is applied becomes the book's last id, and after the first applied
/// update each applied one starts where the book stood.
pub proof fn law_sequence_ids_advance(book: BookView, updates: Seq<UpdateView>, i: int)
    requires
        0 <= i < updates.len(),
    ensures
        ({
            let before = updated_all(book, updates.take(i));
            let after = updated_all(book, updates.take(i + 1));
            &&& after == updated(before, updates[i])
            &&& applies(before, updates[i]) ==> after.last_update_id == updates[i].final_update_id
            &&& applies(before, updates[i]) && !before.first_update ==> updates[i].first_update_id
                == before.last_update_id + 1
            &&& !applies(before, updates[i]) ==> after.last_update_id == before.last_update_id
        }),
{
    assert(updates.take(i + 1).drop_last() =~= updates.take(i));
    assert(updates.take(i + 1).last() == updates[i]);
}

/// Once an update was applied, the book is never again at its first
/// update.
pub proof fn law_first_update_clears_for_good(book: BookView, updates: Seq<UpdateView>)
    requires
        !book.first_update,
    ensures
        !updated_all(book, updates).first_update,
    decreases updates.len(),
{
    if updates.len() > 0 {
        law_first_update_clears_for_good(book, updates.drop_last());
    }
}

/// After an update, a ticking book has every bid below every ask, provided
/// that this held before: an applied update establishes it, any other
/// leaves the sides alone and never turns the status to ticking.
pub proof fn law_ticking_stays_uncrossed(book: BookView, update: UpdateView)
    ensures
        applies(book, update) ==> ticking_means_uncrossed(updated(book, update)),
        ticking_means_uncrossed(book) ==> ticking_means_uncrossed(updated(book, update)),
{
}

/// The same along any sequence of updates.
pub proof fn law_sequence_stays_uncrossed(book: BookView, updates: Seq<UpdateView>)
    requires
        ticking_means_uncrossed(book),
    ensures
        ticking_means_uncrossed(updated_all(book, updates)),
    decreases updates.len(),
{
    if updates.len() > 0 {
        law_sequence_stays_uncrossed(book, updates.drop_last());
        law_ticking_stays_uncrossed(updated_all(book, updates.drop_last()), updates.last());
    }
}

/// In a ticking book whose sides both have a best level, the best bid
/// price is below the best ask price.
pub proof fn law_best_bid_below_best_ask(book: BookView)
    requires
        ticking_means_uncrossed(book),
        book.status == OrderbookStatus::Ticking,
        highest_level(book.bids) is Some,
        lowest_level(book.asks) is Some,
    ensures
        book.best_bid().0.bits < book.best_ask().0.bits,
{
    let bid = choose|k: u64| is_highest(book.bids, k);
    let ask = choose|k: u64| is_lowest(book.asks, k);
    assert(book.bids.contains_key(bid) && book.asks.contains_key(ask));
}

/// No update changes the header or the symbol of a book.
pub proof fn law_updates_keep_identity(book: BookView, updates: Seq<UpdateView>)
    ensures
        updated_all(book, updates).header == book.header,
        updated_all(book, updates).symbol == book.symbol,
    decreases updates.len(),
{
    if updates.len() > 0 {
        law_updates_keep_identity(book, updates.drop_last());
    }
}

/// An update that ends at or before the book's last id, by no more than
/// the stale gap, is dropped: the book is unchanged.
pub proof fn law_behind_within_gap_is_dropped(book: BookView, update: UpdateView)
    requires
        update.final_update_id <= book.last_update_id,
        book.last_update_id - update.final_update_id <= STALE_GAP,
    ensures
        updated(book, update) == book,
{
}

/// An update that lies behind the book by more than the stale gap marks
/// the book stale and changes nothing else.
pub proof fn law_far_behind_marks_stale(book: BookView, update: UpdateView)
    requires
        update.final_update_id <= book.last_update_id,
        book.last_update_id - update.final_update_id > STALE_GAP,
    ensures
        updated(book, update) == (BookView { status: OrderbookStatus::Stale, ..book }),
{
}

/// A first update that does not continue the book marks the book as in
/// error and leaves it waiting for its first update: the next update is
/// held to the rule for a first update again, against the same last id.
pub proof fn law_failed_first_update_is_retried(
    book: BookView,
    failed: UpdateView,
    next: UpdateView,
)
    requires
        book.first_update,
        !behind(book, failed),
        !in_sequence(book, failed),
    ensures
        updated(book, failed) == (BookView { status: OrderbookStatus::Error, ..book }),
        updated(book, failed).first_update,
        applies(updated(book, failed), next) <==> next.first_update_id <= book.last_update_id + 1
            && next.final_update_id > book.last_update_id,
        applies(updated(book, failed), next) ==> updated(
            updated(book, failed),
            next,
        ).last_update_id == next.final_update_id,
{
}

/// The health of a book with these sides; see [`status_of`].
pub fn health(bids: &BookSide, asks: &BookSide) -> (r: OrderbookStatus)
    ensures
        r == status_of(bids@, asks@),
{
    match (bids.highest(), asks.lowest()) {
        (Some(bid), Some(ask)) => {
            if bid.price.bits >= ask.price.bits {
                proof {
                    assert(bids@.contains_key(bid.price.bits));
                    assert(asks@.contains_key(ask.price.bits));
                }
                OrderbookStatus::Crossed
            } else {
                proof {
                    assert forall|b: u64, a: u64| #[trigger]
                        bids@.contains_key(b) && #[trigger] asks@.contains_key(a) implies b
                        < a by {}
                }
                OrderbookStatus::Ticking
            }
        },
        _ => OrderbookStatus::Ticking,
    }
}

impl OrderbookV1 {
    /// The book that a snapshot of the exchange stands for.
    pub open spec fn from_binance_view(
        id: Uuid,
        timestamp: i64,
        sequence_nr: u64,
        correlation_id: Uuid,
        source: Seq<char>,
        exchange: Seq<char>,
        asset_type: Seq<char>,
        symbol: Seq<char>,
        event: BinanceOrderBookEvent,
    ) -> BookView {
        let bids = levels_stored(Map::<u64, u64>::empty(), parsed_levels(bids_text(event.bids@)));
        let asks = levels_stored(Map::<u64, u64>::empty(), parsed_levels(asks_text(event.asks@)));
        BookView {
            header: HeaderView {
                id,
                timestamp,
                sequence_nr,
                correlation_id,
                source,
                exchange,
                asset_type,
            },
            symbol,
            first_update: true,
            last_update_id: event.last_update_id,
            status: status_of(bids, asks),
            bids,
            asks,
        }
    }

    /// Builds the book from a snapshot of the exchange. Each side holds
    /// the entries of the snapshot whose texts parse, a later entry
    /// replacing an earlier one at the same price. The book awaits its
    /// first update; it is crossed where some bid is at or above some ask,
    /// and ticking otherwise.
    pub fn from_binance(
        id: Uuid,
        timestamp: i64,
        sequence_nr: u64,
        correlation_id: Uuid,
        source: &str,
        exchange: &str,
        asset_type: &str,
        symbol: &str,
        event: BinanceOrderBookEvent,
    ) -> (r: OrderbookV1)
        ensures
            r@ == Self::from_binance_view(
                id,
                timestamp,
                sequence_nr,
                correlation_id,
                source@,
                exchange@,
                asset_type@,
                symbol@,
                event,
            ),
            ticking_means_uncrossed(r@),
    {
        let bid_levels = parse_bids(&event.bids);
        let ask_levels = parse_asks(&event.asks);
        let mut bids = BookSide::new();
        bids.store_all(&bid_levels);
        let mut asks = BookSide::new();
        asks.store_all(&ask_levels);
        let status = health(&bids, &asks);
        OrderbookV1 {
            id,
            timestamp,
            sequence_nr,
            correlation_id,
            source: source.to_owned(),
            exchange: exchange.to_owned(),
            asset_type: asset_type.to_owned(),
            symbol: symbol.to_owned(),
            first_update: true,
            last_update_id: event.last_update_id,
            status,
            bids,
            asks,
        }
    }

    pub fn get_type(&self) -> (r: u64)
        ensures
            r == 19,
    {
        19
    }

    pub fn get_version(&self) -> (r: u64)
        ensures
            r == 1,
    {
        1
    }

    pub fn get_id(&self) -> (r: Uuid)
        ensures
            r == self.id,
    {
        self.id
    }

    pub fn get_timestamp(&self) -> (r: i64)
        ensures
            r == self.timestamp,
    {
        self.timestamp
    }

    pub fn get_sequence_number(&self) -> (r: u64)
        ensures
            r == self.sequence_nr,
    {
        self.sequence_nr
    }

    pub fn get_correlation_id(&self) -> (r: Uuid)
        ensures
            r == self.correlation_id,
    {
        self.correlation_id
    }

    /// Price and quantity of the highest bid, zeros where there is no bid.
    pub fn best_bid(&self) -> (r: (Fixed64, Fixed64))
        ensures
            r == self@.best_bid(),
            self@.bids == Map::<u64, u64>::empty() ==> r.0.bits == 0 && r.1.bits == 0,
            self@.bids != Map::<u64, u64>::empty() ==> is_highest(self@.bids, r.0.bits)
                && self@.bids[r.0.bits] == r.1.bits,
    {
        match self.bids.highest() {
            Some(level) => {
                proof {
                    assert(self.bids@.contains_key(level.price.bits));
                }
                (level.price, level.quantity)
            },
            None => (Fixed64::zero(), Fixed64::zero()),
        }
    }

    /// Price and quantity of the lowest ask, zeros where there is no ask.
    pub fn best_ask(&self) -> (r: (Fixed64, Fixed64))
        ensures
            r == self@.best_ask(),
            self@.asks == Map::<u64, u64>::empty() ==> r.0.bits == 0 && r.1.bits == 0,
            self@.asks != Map::<u64, u64>::empty() ==> is_lowest(self@.asks, r.0.bits)
                && self@.asks[r.0.bits] == r.1.bits,
    {
        match self.asks.lowest() {
            Some(level) => {
                proof {
                    assert(self.asks@.contains_key(level.price.bits));
                }
                (level.price, level.quantity)
            },
            None => (Fixed64::zero(), Fixed64::zero()),
        }
    }

    /// Moves the book forward by one update; see [`updated`].
    pub fn update(&mut self, obj: &OrderbookUpdateV1)
        ensures
            final(self)@ == updated(old(self)@, obj@),
            ticking_means_uncrossed(old(self)@) ==> ticking_means_uncrossed(final(self)@),
    {
        if obj.final_update_id <= self.last_update_id {
            if self.last_update_id - obj.final_update_id > STALE_GAP {
                self.status = OrderbookStatus::Stale;
            }
            return ;
        }
        if self.first_update {
            if !(obj.first_update_id <= self.last_update_id + 1) {
                self.status = OrderbookStatus::Error;
                return ;
            }
            self.first_update = false;
        } else if obj.first_update_id != self.last_update_id + 1 {
            self.status = OrderbookStatus::Error;
            return ;
        }
        self.bids.apply_all(&obj.bids);
        self.asks.apply_all(&obj.asks);
        self.status = health(&self.bids, &self.asks);
        self.last_update_id = obj.final_update_id;
    }

    /// Best ask price less best bid price, zero where the bid is not
    /// below the ask.
    pub fn spread(&self) -> (r: Fixed64)
        ensures
            r.bits == self@.spread(),
    {
        let (bid_price, _bid_volume) = self.best_bid();
        let (ask_price, _ask_volume) = self.best_ask();
        ask_price.saturating_sub(bid_price)
    }

    /// Cost of buying `requested_volume` from the asks less the proceeds
    /// of selling it to the bids, each walked from its best level; see
    /// [`sweep_cost`]. A side that runs out counts for what it held.
    pub fn weighted_spread(&self, requested_volume: Fixed64) -> (r: Fixed64)
        ensures
            r.bits == self@.weighted_spread(requested_volume.bits),
    {
        let average_bid = self.bids.sweep(requested_volume, true);
        let average_ask = self.asks.sweep(requested_volume, false);
        average_ask.saturating_sub(average_bid)
    }

    /// Half of the sum of the two best prices.
    pub fn mid(&self) -> (r: Fixed64)
        ensures
            r.bits == self@.mid(),
    {
        let (bid_price, _bid_volume) = self.best_bid();
        let (ask_price, _ask_volume) = self.best_ask();
        ask_price.saturating_add(bid_price).half()
    }

    /// Share of the best bid quantity in the two best quantities
    /// together, zero where both are zero.
    pub fn imbalance(&self) -> (r: Fixed64)
        ensures
            r.bits == self@.imbalance(),
    {
        let (_bid_price, bid_volume) = self.best_bid();
        let (_ask_price, ask_volume) = self.best_ask();
        match bid_volume.try_div(bid_volume.saturating_add(ask_volume)) {
            Ok(share) => share,
            Err(_) => Fixed64::zero(),
        }
    }

    /// The best prices weighted by the imbalance: the ask by the
    /// imbalance, the bid by what the imbalance leaves of one.
    pub fn weighted_mid(&self) -> (r: Fixed64)
        ensures
            r.bits == self@.weighted_mid(),
    {
        let (bid_price, _bid_volume) = self.best_bid();
        let (ask_price, _ask_volume) = self.best_ask();
        let imbalance = self.imbalance();
        let rest = Fixed64::one().saturating_sub(imbalance);
        imbalance.saturating_mul(ask_price).saturating_add(rest.saturating_mul(bid_price))
    }

    /// The mid price plus the imbalance.
    pub fn microprice(&self) -> (r: Fixed64)
        ensures
            r.bits == self@.microprice(),
    {
        let mid = self.mid();
        let imbalance = self.imbalance();
        mid.saturating_add(imbalance)
    }
}

impl Clone for OrderbookV1 {
    fn clone(&self) -> (r: OrderbookV1)
        ensures
            r@ == self@,
    {
        OrderbookV1 {
            id: self.id,
            timestamp: self.timestamp,
            sequence_nr: self.sequence_nr,
            correlation_id: self.correlation_id,
            source: self.source.clone(),
            exchange: self.exchange.clone(),
            asset_type: self.asset_type.clone(),
            symbol: self.symbol.clone(),
            first_update: self.first_update,
            last_update_id: self.last_update_id,
            status: self.status,
            bids: self.bids.clone(),
            asks: self.asks.clone(),
        }
    }
}

} // verus!
