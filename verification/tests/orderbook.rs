use holocore::components::sources::binance::model::{
    BinanceAsks, BinanceBids, BinanceOrderBookEvent, BinanceOrderbookUpdateEvent,
};
use holocore::objects::book_side::BookSide;
use holocore::objects::fixed_point::Fixed64;
use holocore::objects::level::Level;
use holocore::objects::orderbook::{OrderbookStatus, OrderbookV1, STALE_GAP};
use holocore::objects::orderbook_update::OrderbookUpdateV1;
use uuid::Uuid;

fn fx(text: &str) -> Fixed64 {
    Fixed64::from_str(text).expect("a decimal number")
}

fn bids(levels: &[(&str, &str)]) -> Vec<BinanceBids> {
    levels
        .iter()
        .map(|(price, qty)| BinanceBids { price: price.to_string(), qty: qty.to_string() })
        .collect()
}

fn asks(levels: &[(&str, &str)]) -> Vec<BinanceAsks> {
    levels
        .iter()
        .map(|(price, qty)| BinanceAsks { price: price.to_string(), qty: qty.to_string() })
        .collect()
}

fn snapshot(last_update_id: u64, b: &[(&str, &str)], a: &[(&str, &str)]) -> OrderbookV1 {
    OrderbookV1::from_binance(
        Uuid::from_u128(1),
        1_000,
        0,
        Uuid::from_u128(2),
        "BinanceSource",
        "Binance",
        "Spot",
        "BTCUSDT",
        BinanceOrderBookEvent { last_update_id, bids: bids(b), asks: asks(a) },
    )
}

fn update(first: u64, last: u64, b: &[(&str, &str)], a: &[(&str, &str)]) -> OrderbookUpdateV1 {
    OrderbookUpdateV1::from_binance(
        Uuid::from_u128(3),
        2_000,
        7,
        Uuid::from_u128(4),
        "BinanceSource",
        "Binance",
        "Spot",
        BinanceOrderbookUpdateEvent {
            event_type: "depthUpdate".to_string(),
            event_time: 1_663_790_343_000,
            symbol: "BTCUSDT".to_string(),
            first_update_id: first,
            final_update_id: last,
            previous_final_update_id: None,
            bids: bids(b),
            asks: asks(a),
        },
    )
}

fn levels_of(side: &BookSide) -> Vec<(String, String)> {
    side.to_levels().iter().map(|l| (l.price.to_string(), l.quantity.to_string())).collect()
}

fn texts(levels: &[(&str, &str)]) -> Vec<(String, String)> {
    levels.iter().map(|(p, q)| (p.to_string(), q.to_string())).collect()
}

#[test]
fn a_snapshot_starts_a_ticking_book_that_awaits_its_first_update() {
    let book = snapshot(10, &[("100.0", "1")], &[("101.0", "1")]);
    assert_eq!(book.symbol, "BTCUSDT");
    assert_eq!(book.source, "BinanceSource");
    assert_eq!(book.exchange, "Binance");
    assert_eq!(book.asset_type, "Spot");
    assert!(book.first_update);
    assert_eq!(book.last_update_id, 10);
    assert_eq!(book.status, OrderbookStatus::Ticking);
    assert_eq!(book.get_type(), 19);
    assert_eq!(book.get_version(), 1);
    assert_eq!(book.get_id(), Uuid::from_u128(1));
    assert_eq!(book.get_timestamp(), 1_000);
    assert_eq!(book.get_sequence_number(), 0);
    assert_eq!(book.get_correlation_id(), Uuid::from_u128(2));
    assert_eq!(levels_of(&book.bids), texts(&[("100", "1")]));
    assert_eq!(levels_of(&book.asks), texts(&[("101", "1")]));
}

#[test]
fn a_crossed_snapshot_is_not_ticking() {
    let crossed = snapshot(10, &[("102.0", "1")], &[("101.0", "1")]);
    assert_eq!(crossed.status, OrderbookStatus::Crossed);
    assert!(crossed.first_update);
    assert_eq!(crossed.last_update_id, 10);
    let touching = snapshot(10, &[("101.0", "1")], &[("101.0", "1")]);
    assert_eq!(touching.status, OrderbookStatus::Crossed);
    let deep = snapshot(10, &[("99", "1"), ("100", "1")], &[("100.5", "1"), ("98", "1")]);
    assert_eq!(deep.status, OrderbookStatus::Crossed);
    let bids_only = snapshot(10, &[("102.0", "1")], &[]);
    assert_eq!(bids_only.status, OrderbookStatus::Ticking);
    let empty = snapshot(10, &[], &[]);
    assert_eq!(empty.status, OrderbookStatus::Ticking);
    // An update that takes the cross away lets the book tick.
    let mut book = snapshot(10, &[("102.0", "1")], &[("101.0", "1")]);
    book.update(&update(11, 11, &[("102.0", "0"), ("100", "1")], &[]));
    assert_eq!(book.status, OrderbookStatus::Ticking);
}

#[test]
fn a_snapshot_leaves_out_entries_that_do_not_parse() {
    let book = snapshot(
        10,
        &[("100.0", "1"), ("x", "1"), ("99", "y"), ("98", "0"), ("100", "4")],
        &[("101.0", "1")],
    );
    assert_eq!(levels_of(&book.bids), texts(&[("98", "0"), ("100", "4")]));
}

#[test]
fn an_update_carries_the_levels_that_parse_in_order() {
    let u = update(11, 12, &[("100", "1"), ("bad", "1"), ("99", "0")], &[("101", "")]);
    assert_eq!(u.bids, vec![Level::new(fx("100"), fx("1")), Level::new(fx("99"), fx("0"))]);
    assert_eq!(u.asks, vec![]);
    assert_eq!(u.first_update_id, 11);
    assert_eq!(u.final_update_id, 12);
    assert_eq!(u.symbol, "BTCUSDT");
    assert_eq!(u.event_type, "depthUpdate");
    assert_eq!(u.event_time, 1_663_790_343_000);
    assert_eq!(u.previous_final_update_id, None);
    assert_eq!(u.get_type(), 18);
    assert_eq!(u.get_version(), 1);
    assert_eq!(u.get_id(), Uuid::from_u128(3));
    assert_eq!(u.get_timestamp(), 2_000);
    assert_eq!(u.get_sequence_number(), 7);
    assert_eq!(u.get_correlation_id(), Uuid::from_u128(4));
    let copy = u.clone();
    assert_eq!(copy.bids, u.bids);
    assert_eq!(copy.final_update_id, 12);
    assert_eq!(copy.symbol, "BTCUSDT");
}

#[test]
fn snapshot_then_clean_update() {
    let mut book = snapshot(10, &[("100.0", "1")], &[("101.0", "1")]);
    book.update(&update(11, 11, &[], &[("101.0", "2")]));
    assert_eq!(book.best_ask().1.to_string(), "2");
    assert_eq!(book.best_ask().0.to_string(), "101");
    assert_eq!(book.last_update_id, 11);
    assert_eq!(book.status, OrderbookStatus::Ticking);
    assert!(!book.first_update);
    assert_eq!(levels_of(&book.bids), texts(&[("100", "1")]));
}

#[test]
fn pre_snapshot_update_dropped() {
    let mut book = snapshot(10, &[("100.0", "1")], &[("101.0", "1")]);
    book.update(&update(5, 8, &[("100.0", "9")], &[("101.0", "9")]));
    assert_eq!(book.last_update_id, 10);
    assert!(book.first_update);
    assert_eq!(book.status, OrderbookStatus::Ticking);
    assert_eq!(levels_of(&book.bids), texts(&[("100", "1")]));
    assert_eq!(levels_of(&book.asks), texts(&[("101", "1")]));
}

#[test]
fn an_update_that_ends_at_the_last_id_is_dropped() {
    let mut book = snapshot(10, &[("100.0", "1")], &[("101.0", "1")]);
    book.update(&update(10, 10, &[("100.0", "9")], &[]));
    assert_eq!(book.last_update_id, 10);
    assert_eq!(levels_of(&book.bids), texts(&[("100", "1")]));
    assert_eq!(book.status, OrderbookStatus::Ticking);
}

#[test]
fn gap_stale() {
    let mut book = snapshot(100_000, &[("100.0", "1")], &[("101.0", "1")]);
    book.update(&update(30_001, 30_001, &[("100.0", "9")], &[]));
    assert_eq!(book.status, OrderbookStatus::Stale);
    assert_eq!(book.last_update_id, 100_000);
    assert!(book.first_update);
    assert_eq!(levels_of(&book.bids), texts(&[("100", "1")]));
}

#[test]
fn an_update_far_ahead_of_a_fresh_snapshot_is_an_error_not_stale() {
    let mut book = snapshot(100, &[("100.0", "1")], &[("101.0", "1")]);
    book.update(&update(30_001, 30_001, &[], &[]));
    assert_eq!(book.status, OrderbookStatus::Error);
    assert_eq!(book.last_update_id, 100);
}

#[test]
fn the_stale_gap_is_exclusive() {
    assert_eq!(STALE_GAP, 20_000);
    let mut at_gap = snapshot(30_000, &[], &[]);
    at_gap.update(&update(10_000, 10_000, &[], &[]));
    assert_eq!(at_gap.status, OrderbookStatus::Ticking);
    let mut past_gap = snapshot(30_001, &[], &[]);
    past_gap.update(&update(10_000, 10_000, &[], &[]));
    assert_eq!(past_gap.status, OrderbookStatus::Stale);
}

#[test]
fn first_update_gate() {
    let mut book = snapshot(10, &[("100.0", "1")], &[("101.0", "1")]);
    book.update(&update(9, 11, &[("99.0", "3")], &[]));
    assert!(!book.first_update);
    assert_eq!(book.last_update_id, 11);
    assert_eq!(book.status, OrderbookStatus::Ticking);
    assert_eq!(levels_of(&book.bids), texts(&[("99", "3"), ("100", "1")]));

    let mut other = snapshot(10, &[("100.0", "1")], &[("101.0", "1")]);
    other.update(&update(12, 15, &[("99.0", "3")], &[]));
    assert_eq!(other.status, OrderbookStatus::Error);
    assert!(other.first_update);
    assert_eq!(other.last_update_id, 10);
    assert_eq!(levels_of(&other.bids), texts(&[("100", "1")]));
}

#[test]
fn after_a_failed_first_update_the_next_one_is_still_the_first() {
    let mut book = snapshot(10, &[("100.0", "1")], &[("101.0", "1")]);
    book.update(&update(12, 15, &[], &[]));
    assert_eq!(book.status, OrderbookStatus::Error);
    // Reaches back before the snapshot: only a first update may.
    book.update(&update(8, 12, &[("100.0", "2")], &[]));
    assert_eq!(book.status, OrderbookStatus::Ticking);
    assert!(!book.first_update);
    assert_eq!(book.last_update_id, 12);
    assert_eq!(levels_of(&book.bids), texts(&[("100", "2")]));
}

#[test]
fn later_updates_must_start_right_after_the_last_id() {
    let mut book = snapshot(10, &[("100.0", "1")], &[("101.0", "1")]);
    book.update(&update(11, 12, &[], &[]));
    assert_eq!(book.last_update_id, 12);
    book.update(&update(12, 14, &[("100.0", "5")], &[]));
    assert_eq!(book.status, OrderbookStatus::Error);
    assert_eq!(book.last_update_id, 12);
    assert_eq!(levels_of(&book.bids), texts(&[("100", "1")]));
    book.update(&update(14, 15, &[("100.0", "5")], &[]));
    assert_eq!(book.status, OrderbookStatus::Error);
    book.update(&update(13, 15, &[("100.0", "5")], &[]));
    assert_eq!(book.status, OrderbookStatus::Ticking);
    assert_eq!(book.last_update_id, 15);
    assert_eq!(levels_of(&book.bids), texts(&[("100", "5")]));
}

#[test]
fn every_applied_update_becomes_the_last_id() {
    let mut book = snapshot(10, &[], &[]);
    let mut next = 11;
    for width in [1u64, 3, 1, 10, 2] {
        let was = book.last_update_id;
        let u = update(next, next + width - 1, &[], &[]);
        assert_eq!(u.first_update_id, was + 1);
        book.update(&u);
        assert_eq!(book.last_update_id, u.final_update_id);
        assert_eq!(book.status, OrderbookStatus::Ticking);
        next += width;
    }
}

#[test]
fn a_zero_quantity_removes_exactly_that_level() {
    let mut book = snapshot(
        10,
        &[("98", "1"), ("99", "2"), ("100", "3")],
        &[("101", "4"), ("102", "5")],
    );
    book.update(&update(11, 11, &[("99", "0")], &[("103", "0")]));
    assert_eq!(levels_of(&book.bids), texts(&[("98", "1"), ("100", "3")]));
    assert_eq!(levels_of(&book.asks), texts(&[("101", "4"), ("102", "5")]));
}

#[test]
fn a_quantity_overwrites_one_level_and_leaves_the_others() {
    let mut book = snapshot(
        10,
        &[("98", "1"), ("99", "2"), ("100", "3")],
        &[("101", "4"), ("102", "5")],
    );
    book.update(&update(11, 11, &[("99", "7"), ("97.5", "1")], &[("102", "0.5")]));
    assert_eq!(
        levels_of(&book.bids),
        texts(&[("97.5", "1"), ("98", "1"), ("99", "7"), ("100", "3")])
    );
    assert_eq!(levels_of(&book.asks), texts(&[("101", "4"), ("102", "0.5")]));
}

#[test]
fn levels_of_one_update_apply_in_order() {
    let mut book = snapshot(10, &[("100", "1")], &[]);
    book.update(&update(11, 11, &[("100", "0"), ("100", "2"), ("99", "1"), ("99", "0")], &[]));
    assert_eq!(levels_of(&book.bids), texts(&[("100", "2")]));
}

#[test]
fn crossed_detection() {
    let mut book = snapshot(10, &[("100", "1")], &[("101", "1")]);
    book.update(&update(11, 11, &[("102", "1")], &[]));
    assert_eq!(book.status, OrderbookStatus::Crossed);
    assert_eq!(book.last_update_id, 11);
    assert_eq!(levels_of(&book.bids), texts(&[("100", "1"), ("102", "1")]));
    assert_eq!(levels_of(&book.asks), texts(&[("101", "1")]));
    // The book ticks again once the cross is gone.
    book.update(&update(12, 12, &[("102", "0")], &[]));
    assert_eq!(book.status, OrderbookStatus::Ticking);
}

#[test]
fn a_bid_at_the_ask_price_crosses() {
    let mut book = snapshot(10, &[("100", "1")], &[("101", "1")]);
    book.update(&update(11, 11, &[("101", "1")], &[]));
    assert_eq!(book.status, OrderbookStatus::Crossed);
}

#[test]
fn a_book_with_an_empty_side_ticks() {
    let mut book = snapshot(10, &[("100", "1")], &[("101", "1")]);
    book.update(&update(11, 11, &[], &[("101", "0")]));
    assert_eq!(book.status, OrderbookStatus::Ticking);
    assert_eq!(book.best_ask(), (Fixed64::zero(), Fixed64::zero()));
    assert_eq!(book.best_bid(), (fx("100"), fx("1")));
    book.update(&update(12, 12, &[("100", "0")], &[]));
    assert_eq!(book.status, OrderbookStatus::Ticking);
    assert_eq!(book.best_bid(), (Fixed64::zero(), Fixed64::zero()));
    assert!(book.bids.is_empty());
    assert!(book.asks.is_empty());
}

#[test]
fn a_ticking_book_has_its_best_bid_below_its_best_ask() {
    let mut book = snapshot(10, &[("100", "1")], &[("101", "1")]);
    let steps: [(&[(&str, &str)], &[(&str, &str)]); 5] = [
        (&[("100.5", "1")], &[]),
        (&[], &[("100.75", "2")]),
        (&[("100.9", "1")], &[]),
        (&[("100.9", "0"), ("100.5", "0")], &[("100.75", "0")]),
        (&[("101", "3")], &[]),
    ];
    let mut id = 11;
    for (b, a) in steps {
        book.update(&update(id, id, b, a));
        id += 1;
        let (bid, _) = book.best_bid();
        let (ask, _) = book.best_ask();
        if book.status == OrderbookStatus::Ticking && !book.bids.is_empty() && !book.asks.is_empty()
        {
            assert!(bid < ask);
        } else {
            assert_eq!(book.status, OrderbookStatus::Crossed);
            assert!(bid >= ask);
        }
    }
    assert_eq!(book.status, OrderbookStatus::Crossed);
}

#[test]
fn best_levels() {
    let book = snapshot(
        10,
        &[("99", "2"), ("100", "3"), ("98", "1")],
        &[("102", "5"), ("101", "4")],
    );
    assert_eq!(book.best_bid(), (fx("100"), fx("3")));
    assert_eq!(book.best_ask(), (fx("101"), fx("4")));
    let empty = snapshot(10, &[], &[]);
    assert_eq!(empty.best_bid(), (Fixed64::zero(), Fixed64::zero()));
    assert_eq!(empty.best_ask(), (Fixed64::zero(), Fixed64::zero()));
}

#[test]
fn spread_and_mid() {
    let book = snapshot(10, &[("100", "3")], &[("101", "1")]);
    assert_eq!(book.spread(), fx("1"));
    assert_eq!(book.mid(), fx("100.5"));
    let crossed = snapshot(10, &[("102", "3")], &[("101", "1")]);
    assert_eq!(crossed.spread(), Fixed64::zero());
    let empty = snapshot(10, &[], &[]);
    assert_eq!(empty.spread(), Fixed64::zero());
    assert_eq!(empty.mid(), Fixed64::zero());
}

#[test]
fn imbalance_weighted_mid_and_microprice() {
    let book = snapshot(10, &[("100", "3")], &[("101", "1")]);
    // 3 / (3 + 1)
    assert_eq!(book.imbalance(), fx("0.75"));
    // 0.75 * 101 + 0.25 * 100
    assert_eq!(book.weighted_mid(), fx("100.75"));
    // 100.5 + 0.75
    assert_eq!(book.microprice(), fx("101.25"));

    let even = snapshot(10, &[("100", "2")], &[("102", "2")]);
    assert_eq!(even.imbalance(), fx("0.5"));
    assert_eq!(even.weighted_mid(), fx("101"));
    assert_eq!(even.microprice(), fx("101.5"));
}

#[test]
fn imbalance_of_an_empty_book_is_zero() {
    let empty = snapshot(10, &[], &[]);
    assert_eq!(empty.imbalance(), Fixed64::zero());
    assert_eq!(empty.weighted_mid(), Fixed64::zero());
    assert_eq!(empty.microprice(), Fixed64::zero());
    let zeros = snapshot(10, &[("100", "0")], &[("101", "0")]);
    assert_eq!(zeros.imbalance(), Fixed64::zero());
    assert_eq!(zeros.weighted_mid(), fx("100"));
    let bids_only = snapshot(10, &[("100", "2")], &[]);
    assert_eq!(bids_only.imbalance(), fx("1"));
}

#[test]
fn weighted_spread_walks_both_sides_from_the_best_level() {
    let book = snapshot(
        10,
        &[("100", "1"), ("99", "2"), ("98", "5")],
        &[("101", "1"), ("102", "2"), ("103", "5")],
    );
    // asks: 101*1 + 102*1 = 203; bids: 100*1 + 99*1 = 199
    assert_eq!(book.weighted_spread(fx("2")), fx("4"));
    // asks: 101 + 204 + 103*0.5 = 356.5; bids: 100 + 198 + 98*0.5 = 347
    assert_eq!(book.weighted_spread(fx("3.5")), fx("9.5"));
    // asks: 101*0.5; bids: 100*0.5
    assert_eq!(book.weighted_spread(fx("0.5")), fx("0.5"));
    assert_eq!(book.weighted_spread(Fixed64::zero()), Fixed64::zero());
}

#[test]
fn weighted_spread_of_a_thin_book_counts_what_is_there() {
    let book = snapshot(10, &[("100", "1")], &[("101", "1"), ("102", "2")]);
    // asks: 101 + 204 = 305; bids run out after 100.
    assert_eq!(book.weighted_spread(fx("10")), fx("205"));
    let no_asks = snapshot(10, &[("100", "1")], &[]);
    assert_eq!(no_asks.weighted_spread(fx("1")), Fixed64::zero());
    assert_eq!(book.bids.sweep(fx("10"), true), fx("100"));
    assert_eq!(book.asks.sweep(fx("1.5"), false), fx("152"));
}

#[test]
fn one_side_of_a_book() {
    let mut side = BookSide::new();
    assert!(side.is_empty());
    assert_eq!(side.lowest(), None);
    assert_eq!(side.highest(), None);
    side.set(fx("101"), fx("1"));
    side.set(fx("99"), fx("2"));
    side.set(fx("100"), fx("3"));
    side.set(fx("99"), fx("4"));
    assert_eq!(side.len(), 3);
    assert_eq!(side.get(fx("99")), Some(fx("4")));
    assert_eq!(side.get(fx("99.5")), None);
    assert_eq!(side.lowest(), Some(Level::new(fx("99"), fx("4"))));
    assert_eq!(side.highest(), Some(Level::new(fx("101"), fx("1"))));
    side.remove(fx("42"));
    assert_eq!(side.len(), 3);
    side.remove(fx("101"));
    assert_eq!(side.highest(), Some(Level::new(fx("100"), fx("3"))));
    side.apply(Level::new(fx("99"), Fixed64::zero()));
    side.apply(Level::new(fx("98"), fx("1")));
    assert_eq!(levels_of(&side), texts(&[("98", "1"), ("100", "3")]));
    let copy = side.clone();
    assert_eq!(levels_of(&copy), levels_of(&side));
    side.apply_all(&vec![Level::new(fx("98"), Fixed64::zero()), Level::new(fx("97"), fx("2"))]);
    assert_eq!(levels_of(&side), texts(&[("97", "2"), ("100", "3")]));
    side.store_all(&vec![Level::new(fx("97"), Fixed64::zero())]);
    assert_eq!(levels_of(&side), texts(&[("97", "0"), ("100", "3")]));
    assert_eq!(levels_of(&copy), texts(&[("98", "1"), ("100", "3")]));
}

#[test]
fn a_copy_of_a_book_is_the_same_book() {
    let book = snapshot(10, &[("100", "3")], &[("101", "1")]);
    let copy = book.clone();
    assert_eq!(copy.symbol, book.symbol);
    assert_eq!(copy.last_update_id, 10);
    assert_eq!(copy.status, OrderbookStatus::Ticking);
    assert_eq!(copy.get_id(), book.get_id());
    assert_eq!(levels_of(&copy.bids), levels_of(&book.bids));
    assert_eq!(levels_of(&copy.asks), levels_of(&book.asks));
}
