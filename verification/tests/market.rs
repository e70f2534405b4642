use holocore::components::processing_units::common::update_orderbook;
use holocore::components::processing_units::mock::MockPU;
use holocore::components::processing_units::orderbook_manager::{
    install_snapshot, OrderbookManagerPU,
};
use holocore::components::processing_units::queues::UpdateQueues;
use holocore::components::processing_units::strategy::base::StrategyPU;
use holocore::components::processing_units::strategy::factory::{is_known, make};
use holocore::components::processing_units::strategy::trend_following::{
    TrendFollowing, WATCHED_VOLUME_BITS,
};
use holocore::components::processing_units::strategy::Algorithms;
use holocore::components::sources::binance::model::{
    BinanceAsks, BinanceBids, BinanceOrderBookEvent, BinanceOrderbookUpdateEvent,
};
use holocore::config::pus::{MockPUConfig, OrderbookManagerPUConfig, StrategyPUConfig};
use holocore::objects::fixed_point::Fixed64;
use holocore::objects::market::Market;
use holocore::objects::mock::MockV1;
use holocore::objects::orderbook::{OrderbookStatus, OrderbookV1};
use holocore::objects::orderbook_update::OrderbookUpdateV1;
use holocore::objects::symbol_table::SymbolTable;
use holocore::objects::Objects;
use uuid::Uuid;

fn fx(text: &str) -> Fixed64 {
    Fixed64::from_str(text).expect("a decimal number")
}

fn bids(levels: &[(&str, &str)]) -> Vec<BinanceBids> {
    levels
        .iter()
        .map(|(price, qty)| BinanceBids { price: price.to_string(), qty: qty.to_string() })
        .collect()
}

fn asks(levels: &[(&str, &str)]) -> Vec<BinanceAsks> {
    levels
        .iter()
        .map(|(price, qty)| BinanceAsks { price: price.to_string(), qty: qty.to_string() })
        .collect()
}

fn snapshot(
    symbol: &str,
    last_update_id: u64,
    b: &[(&str, &str)],
    a: &[(&str, &str)],
) -> OrderbookV1 {
    OrderbookV1::from_binance(
        Uuid::from_u128(1),
        1_000,
        0,
        Uuid::from_u128(2),
        "BinanceSource",
        "Binance",
        "Spot",
        symbol,
        BinanceOrderBookEvent { last_update_id, bids: bids(b), asks: asks(a) },
    )
}

fn update(
    symbol: &str,
    first: u64,
    last: u64,
    b: &[(&str, &str)],
    a: &[(&str, &str)],
) -> OrderbookUpdateV1 {
    OrderbookUpdateV1::from_binance(
        Uuid::from_u128(3),
        2_000,
        7,
        Uuid::from_u128(4),
        "BinanceSource",
        "Binance",
        "Spot",
        BinanceOrderbookUpdateEvent {
            event_type: "depthUpdate".to_string(),
            event_time: 1_663_790_343_000,
            symbol: symbol.to_string(),
            first_update_id: first,
            final_update_id: last,
            previous_final_update_id: None,
            bids: bids(b),
            asks: asks(a),
        },
    )
}

fn manager(realtime: bool) -> OrderbookManagerPU {
    OrderbookManagerPU::new(&OrderbookManagerPUConfig {
        name: "Books".to_string(),
        queue_size: 16,
        downstreams: vec![],
        realtime,
    })
}

#[test]
fn a_market_holds_one_book_per_symbol() {
    let mut market = Market::new("Market");
    assert!(!market.contains("BTCUSDT"));
    assert!(market.get_book("BTCUSDT").is_none());
    assert!(market.get_mut_book("BTCUSDT").is_none());
    market.set_book(snapshot("BTCUSDT", 10, &[("100", "1")], &[("101", "1")]));
    market.set_book(snapshot("ETHUSDT", 20, &[("10", "1")], &[("11", "1")]));
    assert!(market.contains("BTCUSDT"));
    assert!(market.contains("ETHUSDT"));
    assert!(!market.contains("btcusdt"));
    assert_eq!(market.get_book("BTCUSDT").unwrap().last_update_id, 10);
    assert_eq!(market.get_book("ETHUSDT").unwrap().last_update_id, 20);
    market.set_book(snapshot("BTCUSDT", 30, &[], &[]));
    assert_eq!(market.get_book("BTCUSDT").unwrap().last_update_id, 30);
    assert_eq!(market.get_book("ETHUSDT").unwrap().last_update_id, 20);
    market.clear_book("BTCUSDT");
    assert!(!market.contains("BTCUSDT"));
    assert!(market.contains("ETHUSDT"));
    market.clear_book("BTCUSDT");
    assert!(market.contains("ETHUSDT"));
}

#[test]
fn a_book_is_changed_in_place_through_the_market() {
    let mut market = Market::new("Market");
    market.set_book(snapshot("BTCUSDT", 10, &[("100", "1")], &[("101", "1")]));
    market.set_book(snapshot("ETHUSDT", 20, &[("10", "1")], &[("11", "1")]));
    {
        let book = market.get_mut_book("BTCUSDT").unwrap();
        book.update(&update("BTCUSDT", 11, 11, &[("100", "5")], &[]));
    }
    let book = market.get_book("BTCUSDT").unwrap();
    assert_eq!(book.last_update_id, 11);
    assert_eq!(book.best_bid(), (fx("100"), fx("5")));
    assert_eq!(market.get_book("ETHUSDT").unwrap().last_update_id, 20);
}

#[test]
fn pending_flags() {
    let mut market = Market::new("Market");
    assert!(!market.is_pending("BTCUSDT"));
    market.set_pending("BTCUSDT");
    assert!(market.is_pending("BTCUSDT"));
    assert!(!market.is_pending("ETHUSDT"));
    market.set_pending("BTCUSDT");
    assert!(market.is_pending("BTCUSDT"));
    market.clear_pending("BTCUSDT");
    assert!(!market.is_pending("BTCUSDT"));
    market.clear_pending("ETHUSDT");
    assert!(!market.is_pending("ETHUSDT"));
    assert!(!market.contains("BTCUSDT"));
}

#[test]
fn an_update_moves_the_book_that_the_market_holds() {
    let mut market = Market::new("Market");
    let mut queues = UpdateQueues::new();
    market.set_book(snapshot("BTCUSDT", 10, &[("100", "1")], &[("101", "1")]));
    let u = update("BTCUSDT", 11, 11, &[], &[("101", "2")]);
    let request = update_orderbook(&mut market, &u, true, &mut queues);
    assert_eq!(request, None);
    assert_eq!(queues.len("BTCUSDT"), 0);
    assert!(!market.is_pending("BTCUSDT"));
    let book = market.get_book("BTCUSDT").unwrap();
    assert_eq!(book.last_update_id, 11);
    assert_eq!(book.best_ask(), (fx("101"), fx("2")));
}

#[test]
fn a_stale_book_is_dropped_from_the_market() {
    let mut market = Market::new("Market");
    let mut queues = UpdateQueues::new();
    market.set_book(snapshot("BTCUSDT", 100_000, &[("100", "1")], &[("101", "1")]));
    market.set_book(snapshot("ETHUSDT", 100_000, &[], &[]));
    let u = update("BTCUSDT", 30_001, 30_001, &[], &[]);
    let request = update_orderbook(&mut market, &u, true, &mut queues);
    assert_eq!(request, None);
    assert!(!market.contains("BTCUSDT"));
    assert!(market.contains("ETHUSDT"));
    assert_eq!(queues.len("BTCUSDT"), 0);
}

#[test]
fn a_book_in_error_stays_in_the_market() {
    let mut market = Market::new("Market");
    let mut queues = UpdateQueues::new();
    market.set_book(snapshot("BTCUSDT", 10, &[("100", "1")], &[("101", "1")]));
    let u = update("BTCUSDT", 12, 15, &[], &[]);
    update_orderbook(&mut market, &u, true, &mut queues);
    assert_eq!(market.get_book("BTCUSDT").unwrap().status, OrderbookStatus::Error);
}

#[test]
fn an_update_without_a_book_asks_for_the_snapshot_once() {
    let mut market = Market::new("Market");
    let mut queues = UpdateQueues::new();
    let first = update("BTCUSDT", 11, 11, &[], &[]);
    let request = update_orderbook(&mut market, &first, true, &mut queues);
    assert_eq!(
        request,
        Some("http://127.0.0.1:8000/BinanceSource/orderbook/BTCUSDT".to_string())
    );
    assert!(market.is_pending("BTCUSDT"));
    assert!(!market.contains("BTCUSDT"));
    assert_eq!(queues.len("BTCUSDT"), 1);
    let second = update("BTCUSDT", 12, 12, &[], &[]);
    let request = update_orderbook(&mut market, &second, true, &mut queues);
    assert_eq!(request, None);
    assert_eq!(queues.len("BTCUSDT"), 2);
    let other = update("ETHUSDT", 5, 5, &[], &[]);
    let request = update_orderbook(&mut market, &other, true, &mut queues);
    assert_eq!(
        request,
        Some("http://127.0.0.1:8000/BinanceSource/orderbook/ETHUSDT".to_string())
    );
    assert_eq!(queues.len("ETHUSDT"), 1);
    assert_eq!(queues.len("BTCUSDT"), 2);
}

#[test]
fn outside_realtime_mode_nothing_is_asked_for() {
    let mut market = Market::new("Market");
    let mut queues = UpdateQueues::new();
    let u = update("BTCUSDT", 11, 11, &[], &[]);
    let request = update_orderbook(&mut market, &u, false, &mut queues);
    assert_eq!(request, None);
    assert!(!market.is_pending("BTCUSDT"));
    assert_eq!(queues.len("BTCUSDT"), 1);
}

#[test]
fn queued_updates_replay_in_order_of_arrival() {
    let mut queues = UpdateQueues::new();
    queues.push("BTCUSDT", update("BTCUSDT", 11, 11, &[("100", "2")], &[]));
    queues.push("BTCUSDT", update("BTCUSDT", 12, 12, &[("100", "3")], &[]));
    queues.push("ETHUSDT", update("ETHUSDT", 11, 11, &[("100", "9")], &[]));
    let mut book = snapshot("BTCUSDT", 10, &[("100", "1")], &[("101", "1")]);
    queues.replay_into("BTCUSDT", &mut book);
    assert_eq!(book.last_update_id, 12);
    assert_eq!(book.best_bid(), (fx("100"), fx("3")));
    assert_eq!(queues.len("BTCUSDT"), 0);
    assert_eq!(queues.len("ETHUSDT"), 1);
    let mut untouched = snapshot("XRPUSDT", 10, &[("100", "1")], &[]);
    queues.replay_into("XRPUSDT", &mut untouched);
    assert_eq!(untouched.last_update_id, 10);
}

#[test]
fn replay_queue() {
    let mut pu = manager(true);
    let (result, request) =
        pu.execute(Objects::OrderbookUpdateV1(update("BTCUSDT", 11, 11, &[("100", "2")], &[])));
    assert!(matches!(result, Ok((Some(Objects::OrderbookUpdateV1(_)), false))));
    assert_eq!(
        request,
        Some("http://127.0.0.1:8000/BinanceSource/orderbook/BTCUSDT".to_string())
    );
    assert!(pu.market.is_pending("BTCUSDT"));
    assert_eq!(pu.obj_queues.len("BTCUSDT"), 1);

    let (_, request) = pu.execute(Objects::OrderbookUpdateV1(update(
        "BTCUSDT",
        12,
        12,
        &[],
        &[("101", "4")],
    )));
    assert_eq!(request, None);
    assert_eq!(pu.obj_queues.len("BTCUSDT"), 2);
    assert!(!pu.market.contains("BTCUSDT"));

    let (result, request) = pu.execute(Objects::OrderbookV1(snapshot(
        "BTCUSDT",
        10,
        &[("100", "1")],
        &[("101", "1")],
    )));
    assert_eq!(request, None);
    let passed_on = match result {
        Ok((Some(Objects::OrderbookV1(book)), false)) => book,
        _ => panic!("the snapshot is passed on"),
    };
    assert_eq!(passed_on.last_update_id, 12);
    assert!(!pu.market.is_pending("BTCUSDT"));
    assert_eq!(pu.obj_queues.len("BTCUSDT"), 0);
    let book = pu.market.get_book("BTCUSDT").unwrap();
    assert_eq!(book.last_update_id, 12);
    assert!(!book.first_update);
    assert_eq!(book.status, OrderbookStatus::Ticking);
    assert_eq!(book.best_bid(), (fx("100"), fx("2")));
    assert_eq!(book.best_ask(), (fx("101"), fx("4")));
    assert_eq!(pu.processed_objs, 3);

    // From here on updates reach the book directly.
    let (_, request) = pu.execute(Objects::OrderbookUpdateV1(update(
        "BTCUSDT",
        13,
        13,
        &[("100", "0")],
        &[],
    )));
    assert_eq!(request, None);
    assert!(pu.market.get_book("BTCUSDT").unwrap().bids.is_empty());
    assert_eq!(pu.obj_queues.len("BTCUSDT"), 0);
}

#[test]
fn a_snapshot_without_waiting_updates_is_installed_as_it_is() {
    let mut market = Market::new("Market");
    let mut queues = UpdateQueues::new();
    market.set_pending("BTCUSDT");
    let installed = install_snapshot(
        &mut market,
        &mut queues,
        snapshot("BTCUSDT", 10, &[("100", "1")], &[("101", "1")]),
    );
    assert_eq!(installed.last_update_id, 10);
    assert!(installed.first_update);
    assert!(!market.is_pending("BTCUSDT"));
    assert_eq!(market.get_book("BTCUSDT").unwrap().last_update_id, 10);
}

#[test]
fn the_manager_passes_other_objects_on_untouched() {
    let mut pu = manager(true);
    assert_eq!(pu.init(), Ok(()));
    assert_eq!(pu.get_name(), "Books");
    assert_eq!(pu.get_queue_size(), 16);
    let mock = MockV1::new(Uuid::from_u128(9), 5, 6, Uuid::from_u128(8));
    let (result, request) = pu.execute(Objects::MockV1(mock));
    assert_eq!(request, None);
    match result {
        Ok((Some(Objects::MockV1(m)), false)) => {
            assert_eq!(m.get_id(), Uuid::from_u128(9));
            assert_eq!(m.get_sequence_number(), 6);
        },
        _ => panic!("the object is passed on"),
    }
    assert_eq!(pu.processed_objs, 1);
    assert!(!pu.market.contains("BTCUSDT"));
}

#[test]
fn the_mock_unit_counts_and_passes_on() {
    let mut pu =
        MockPU::new(&MockPUConfig { name: "Mock".to_string(), queue_size: 4, downstreams: vec![] });
    assert_eq!(pu.init(), Ok(()));
    assert_eq!(pu.get_name(), "Mock");
    assert_eq!(pu.get_queue_size(), 4);
    let mock = MockV1::new(Uuid::from_u128(9), 5, 6, Uuid::from_u128(8));
    let result = pu.execute(Objects::MockV1(mock));
    assert!(matches!(result, Ok((Some(Objects::MockV1(_)), false))));
    assert_eq!(pu.processed_objs, 1);
    pu.processed_objs = u64::MAX;
    let mock = MockV1::new(Uuid::from_u128(9), 5, 6, Uuid::from_u128(8));
    let _ = pu.execute(Objects::MockV1(mock));
    assert_eq!(pu.processed_objs, u64::MAX);
}

#[test]
fn the_strategy_unit_maintains_its_market() {
    let mut pu = StrategyPU::new(&StrategyPUConfig {
        name: "Strategy".to_string(),
        queue_size: 8,
        downstreams: vec![],
        realtime: false,
        algorithm: "TrendFollowing".to_string(),
    });
    assert_eq!(pu.init(), Ok(()));
    assert_eq!(pu.get_name(), "Strategy");
    assert_eq!(pu.get_queue_size(), 8);
    let (_, request) =
        pu.execute(Objects::OrderbookUpdateV1(update("BTCUSDT", 11, 11, &[("100", "2")], &[])));
    assert_eq!(request, None);
    assert_eq!(pu.obj_queues.len("BTCUSDT"), 1);
    let (result, _) = pu.execute(Objects::OrderbookV1(snapshot(
        "BTCUSDT",
        10,
        &[("100", "1")],
        &[("101", "1")],
    )));
    assert!(matches!(result, Ok((Some(Objects::OrderbookV1(_)), false))));
    assert_eq!(pu.market.get_book("BTCUSDT").unwrap().best_bid(), (fx("100"), fx("2")));
    assert_eq!(pu.processed_objs, 2);
}

#[test]
fn strategies_are_built_by_name() {
    assert!(is_known("TrendFollowing"));
    assert!(!is_known("trendfollowing"));
    assert!(!is_known(""));
    assert!(matches!(make("TrendFollowing"), Algorithms::TrendFollowing(_)));
}

#[test]
fn the_trend_follower_reads_the_watched_book() {
    let mut algo = TrendFollowing::new();
    let mut market = Market::new("Market");
    let watched = Objects::OrderbookUpdateV1(update("BTCUSDT", 11, 11, &[], &[]));
    let other = Objects::OrderbookUpdateV1(update("ETHUSDT", 11, 11, &[], &[]));
    assert!(algo.watches(&watched));
    assert!(!algo.watches(&other));
    assert_eq!(algo.observe(&watched, &market), None);
    market.set_book(snapshot("BTCUSDT", 10, &[("100", "3")], &[("101", "1")]));
    market.set_book(snapshot("ETHUSDT", 10, &[("10", "3")], &[("11", "1")]));
    assert_eq!(algo.observe(&other, &market), None);
    let figures = algo.observe(&watched, &market).unwrap();
    assert_eq!(figures.spread, fx("1"));
    assert_eq!(figures.mid, fx("100.5"));
    assert_eq!(figures.weighted_mid, fx("100.75"));
    // A tenth, rounded down to 429496729 units, bought at 101 and sold at 100.
    assert_eq!(WATCHED_VOLUME_BITS, 429_496_729);
    assert_eq!(figures.weighted_spread, Fixed64::from_bits(429_496_729));
    let result = algo.process(&watched, &market);
    assert!(matches!(result, Ok((None, false))));
    let mut wrapped = Algorithms::TrendFollowing(TrendFollowing::new());
    assert!(matches!(wrapped.process(&other, &market), Ok((None, false))));
}

#[test]
fn a_table_holds_one_value_per_symbol() {

    let mut table: SymbolTable<u32> = SymbolTable::new();
    assert!(!table.contains("a"));
    assert_eq!(table.get("a"), None);
    assert_eq!(table.get_mut("a"), None);
    table.insert("a", 1);
    table.insert("b", 2);
    table.insert("a", 3);
    assert!(table.contains("a"));
    assert_eq!(table.get("a"), Some(&3));
    assert_eq!(table.get("b"), Some(&2));
    assert_eq!(table.get(""), None);
    *table.get_mut("b").unwrap() += 40;
    assert_eq!(table.get("b"), Some(&42));
    assert_eq!(table.get("a"), Some(&3));
    table.remove("a");
    assert_eq!(table.get("a"), None);
    assert_eq!(table.get("b"), Some(&42));
    table.remove("a");
    table.remove("b");
    assert!(!table.contains("b"));
}

#[test]
fn the_market_keeps_its_name() {
    assert_eq!(Market::new("Market").get_name(), "Market");
}
