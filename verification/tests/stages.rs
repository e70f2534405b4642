use holocore::components::control::Controls;
use holocore::components::sinks::binance::model::{
    find_balance, BinanceBalance, BinanceNewOrder, BinanceOrderSide, BinanceOrderType,
};
use holocore::components::sinks::binance::spot::BinanceSpotSink;
use holocore::components::sinks::factory;
use holocore::components::sinks::file::{FileSink, LINE_END};
use holocore::components::sinks::mock::MockSink;
use holocore::components::sinks::Sinks;
use holocore::components::sources::binance::model::{
    BinanceAsks, BinanceBids, BinanceKline, BinanceKlineEvent, BinanceOrderBookEvent,
    BinanceOrderbookUpdateEvent, BinanceTradeEvent,
};
use holocore::components::sources::binance::spot::{
    classify, BinanceEvent, BinanceSpotSource, EventKind, Read,
};
use holocore::components::sources::file::FileSource;
use holocore::components::sources::mock::MockSource;
use holocore::components::sources::Sources;
use holocore::config::sinks::{BinanceSpotSinkConfig, FileSinkConfig, MockSinkConfig, SinkConfigs};
use holocore::config::sources::{BinanceSpotSourceConfig, FileSourceConfig, MockSourceConfig};
use holocore::objects::fixed_point::Fixed64;
use holocore::objects::kline::KlineV1;
use holocore::objects::mock::MockV1;
use holocore::objects::new_order::{NewOrderV1, OrderSide, OrderType};
use holocore::objects::trade::TradeV1;
use holocore::objects::Objects;
use uuid::Uuid;

fn fx(text: &str) -> Fixed64 {
    Fixed64::from_str(text).expect("a decimal number")
}

fn exchange_source() -> BinanceSpotSource {
    BinanceSpotSource::new(&BinanceSpotSourceConfig {
        name: "Exchange".to_string(),
        queue_size: 7,
        downstreams: vec!["Books".to_string()],
        base_url: "wss://stream.example/stream?streams=".to_string(),
        snapshot_url: "https://api.example/depth?symbol=".to_string(),
        symbols: vec!["btcusdt@depth/".to_string(), "ethusdt@trade".to_string()],
        wakeup_interval: 1_000,
    })
}

fn kline_event() -> BinanceKlineEvent {
    BinanceKlineEvent {
        event_type: "kline".to_string(),
        event_time: 123,
        symbol: "BTCUSDT".to_string(),
        kline: BinanceKline {
            open_time: 1,
            close_time: 2,
            symbol: "BTCUSDT".to_string(),
            interval: "1m".to_string(),
            first_trade_id: 3,
            last_trade_id: 4,
            open: "100.0".to_string(),
            close: "101.0".to_string(),
            high: "102.0".to_string(),
            low: "99.0".to_string(),
            volume: "5".to_string(),
            number_of_trades: 6,
            is_final_bar: true,
            quote_asset_volume: "7".to_string(),
            taker_buy_base_asset_volume: "8".to_string(),
            taker_buy_quote_asset_volume: "9".to_string(),
            ignore: "0".to_string(),
        },
    }
}

fn trade_event() -> BinanceTradeEvent {
    BinanceTradeEvent {
        event_type: "trade".to_string(),
        event_time: 123,
        symbol: "BTCUSDT".to_string(),
        trade_id: 42,
        price: "100.5".to_string(),
        qty: "0.25".to_string(),
        buyer_order_id: 1,
        seller_order_id: 2,
        trade_order_time: 124,
        is_buyer_maker: true,
        m_ignore: false,
    }
}

fn update_event() -> BinanceOrderbookUpdateEvent {
    BinanceOrderbookUpdateEvent {
        event_type: "depthUpdate".to_string(),
        event_time: 123,
        symbol: "BTCUSDT".to_string(),
        first_update_id: 11,
        final_update_id: 12,
        previous_final_update_id: Some(10),
        bids: vec![BinanceBids { price: "100".to_string(), qty: "1".to_string() }],
        asks: vec![BinanceAsks { price: "101".to_string(), qty: "2".to_string() }],
    }
}

#[test]
fn objects_tell_their_kind_and_header() {
    let mock = MockV1::new(Uuid::from_u128(1), 2, 3, Uuid::from_u128(4));
    assert_eq!(mock.get_type(), 1);
    assert_eq!(mock.get_version(), 1);
    assert_eq!(mock.get_id(), Uuid::from_u128(1));
    assert_eq!(mock.get_timestamp(), 2);
    assert_eq!(mock.get_sequence_number(), 3);
    assert_eq!(mock.get_correlation_id(), Uuid::from_u128(4));
    let obj = Objects::MockV1(mock);
    assert_eq!(obj.get_type(), 1);
    assert_eq!(obj.get_version(), 1);
    assert_eq!(obj.get_id(), Uuid::from_u128(1));
    assert_eq!(obj.get_timestamp(), 2);
    assert_eq!(obj.get_sequence_number(), 3);
    assert_eq!(obj.get_correlation_id(), Uuid::from_u128(4));
    let copy = obj.clone();
    assert_eq!(copy.get_id(), Uuid::from_u128(1));
    assert_eq!(copy.get_sequence_number(), 3);

    let order = NewOrderV1::new(
        Uuid::from_u128(5),
        6,
        7,
        Uuid::from_u128(8),
        "BTCUSDT",
        OrderSide::Buy,
        OrderType::Limit,
        fx("0.5"),
        fx("100"),
    );
    assert_eq!(order.get_type(), 20);
    assert_eq!(order.get_version(), 1);
    assert_eq!(order.get_id(), Uuid::from_u128(5));
    assert_eq!(order.get_timestamp(), 6);
    assert_eq!(order.get_sequence_number(), 7);
    assert_eq!(order.get_correlation_id(), Uuid::from_u128(8));
    assert_eq!(order.symbol, "BTCUSDT");
    assert_eq!(order.clone().quantity, fx("0.5"));
    let obj = Objects::NewOrderV1(order);
    assert_eq!(obj.get_type(), 20);
    assert_eq!(obj.get_sequence_number(), 7);
}

#[test]
fn a_kline_carries_the_candlestick_of_the_event() {
    let kline = KlineV1::from_binance(
        Uuid::from_u128(1),
        2,
        3,
        Uuid::from_u128(4),
        "Exchange",
        "Binance",
        "Spot",
        kline_event(),
    );
    assert_eq!(kline.get_type(), 16);
    assert_eq!(kline.get_version(), 1);
    assert_eq!(kline.get_id(), Uuid::from_u128(1));
    assert_eq!(kline.get_timestamp(), 2);
    assert_eq!(kline.get_sequence_number(), 3);
    assert_eq!(kline.get_correlation_id(), Uuid::from_u128(4));
    assert_eq!(kline.source, "Exchange");
    assert_eq!(kline.exchange, "Binance");
    assert_eq!(kline.asset_type, "Spot");
    assert_eq!(kline.event_time, 123);
    assert_eq!(kline.open_time, 1);
    assert_eq!(kline.close_time, 2);
    assert_eq!(kline.symbol, "BTCUSDT");
    assert_eq!(kline.interval, "1m");
    assert_eq!(kline.first_trade_id, 3);
    assert_eq!(kline.last_trade_id, 4);
    assert_eq!(kline.open, "100.0");
    assert_eq!(kline.close, "101.0");
    assert_eq!(kline.high, "102.0");
    assert_eq!(kline.low, "99.0");
    assert_eq!(kline.volume, "5");
    assert_eq!(kline.number_of_trades, 6);
    assert!(kline.is_final_bar);
    assert_eq!(kline.quote_asset_volume, "7");
    assert_eq!(kline.taker_buy_base_asset_volume, "8");
    assert_eq!(kline.taker_buy_quote_asset_volume, "9");
    assert_eq!(kline.ignore, "0");
    let copy = kline.clone();
    assert_eq!(copy.close, "101.0");
    assert_eq!(Objects::KlineV1(copy).get_type(), 16);
}

#[test]
fn a_trade_carries_the_fields_of_the_event() {
    let trade = TradeV1::from_binance(
        Uuid::from_u128(1),
        2,
        3,
        Uuid::from_u128(4),
        "Exchange",
        "Binance",
        "Spot",
        trade_event(),
    );
    assert_eq!(trade.get_type(), 17);
    assert_eq!(trade.get_version(), 1);
    assert_eq!(trade.get_id(), Uuid::from_u128(1));
    assert_eq!(trade.get_timestamp(), 2);
    assert_eq!(trade.get_sequence_number(), 3);
    assert_eq!(trade.get_correlation_id(), Uuid::from_u128(4));
    assert_eq!(trade.source, "Exchange");
    assert_eq!(trade.event_time, 123);
    assert_eq!(trade.symbol, "BTCUSDT");
    assert_eq!(trade.trade_id, 42);
    assert_eq!(trade.price, "100.5");
    assert_eq!(trade.quantity, "0.25");
    assert_eq!(trade.buyer_order_id, 1);
    assert_eq!(trade.seller_order_id, 2);
    assert_eq!(trade.trade_order_time, 124);
    assert!(trade.is_buyer_maker);
    assert!(!trade.ignore);
    assert_eq!(Objects::TradeV1(trade.clone()).get_type(), 17);
}

#[test]
fn the_mock_source_numbers_its_objects() {
    let mut source = MockSource::new(&MockSourceConfig {
        name: "Mock".to_string(),
        queue_size: 10,
        downstreams: vec![],
        sleep_time: 250,
    });
    assert_eq!(source.init(), Ok(()));
    assert_eq!(source.get_name(), "Mock");
    assert_eq!(source.get_queue_size(), 10);
    assert_eq!(source.sleep_time, 250);
    source.set_sleep_time(0);
    assert_eq!(source.sleep_time, 0);
    for expected in 1..=3u64 {
        match source.recv(Uuid::from_u128(1), 99, Uuid::from_u128(2)) {
            Ok((Some(Objects::MockV1(mock)), false)) => {
                assert_eq!(mock.get_sequence_number(), expected);
                assert_eq!(mock.get_timestamp(), 99);
                assert_eq!(mock.get_id(), Uuid::from_u128(1));
                assert_eq!(mock.get_correlation_id(), Uuid::from_u128(2));
            },
            _ => panic!("a mock object"),
        }
    }
    assert_eq!(source.sequence_number, 3);
    let injected = MockSource::injected(Uuid::from_u128(1), 99, Uuid::from_u128(2));
    assert_eq!(injected.get_sequence_number(), 0);
    assert_eq!(injected.get_type(), 1);
    let mut any = Sources::MockSource(source);
    any.set_sleep_time(75);
    assert_eq!(any.get_name(), "Mock");
    match any {
        Sources::MockSource(source) => assert_eq!(source.sleep_time, 75),
        _ => panic!("a mock source"),
    }
}

#[test]
fn the_file_source_ends_with_the_file() {
    let mut source = FileSource::new(&FileSourceConfig {
        name: "Replay".to_string(),
        queue_size: 5,
        downstreams: vec![],
        filename: "objects.json".to_string(),
    });
    assert_eq!(source.get_name(), "Replay");
    assert_eq!(source.get_queue_size(), 5);
    assert_eq!(source.filename, "objects.json");
    let mock = Objects::MockV1(MockV1::new(Uuid::from_u128(1), 2, 3, Uuid::from_u128(4)));
    assert!(matches!(source.recv(17, Ok(Some(mock))), Ok((Some(Objects::MockV1(_)), false))));
    assert_eq!(source.sequence_number, 1);
    assert!(matches!(source.recv(5, Ok(None)), Ok((None, false))));
    assert_eq!(source.sequence_number, 2);
    match source.recv(3, Err("not an object".to_string())) {
        Err(e) => assert_eq!(e, "not an object"),
        _ => panic!("the line does not decode"),
    }
    assert_eq!(source.sequence_number, 2);
    assert!(matches!(source.recv(0, Err("unused".to_string())), Ok((None, true))));
    assert_eq!(source.sequence_number, 2);
    source.set_sleep_time(100);
    assert_eq!(source.sequence_number, 2);
}

#[test]
fn events_are_told_apart_by_their_tag() {
    assert_eq!(classify(Some("depthUpdate")), EventKind::DepthUpdate);
    assert_eq!(classify(Some("kline")), EventKind::Kline);
    assert_eq!(classify(Some("trade")), EventKind::Trade);
    assert_eq!(classify(Some("aggTrade")), EventKind::Unknown);
    assert_eq!(classify(Some("")), EventKind::Unknown);
    assert_eq!(classify(Some("DepthUpdate")), EventKind::Unknown);
    assert_eq!(classify(None), EventKind::Unknown);
}

#[test]
fn the_exchange_source_connects_to_the_joined_address() {
    let mut source = exchange_source();
    assert_eq!(source.get_name(), "Exchange");
    assert_eq!(source.get_queue_size(), 7);
    assert_eq!(
        source.complete_url(),
        "wss://stream.example/stream?streams=btcusdt@depth/ethusdt@trade"
    );
    assert!(!source.is_active());
    source.connected();
    assert!(source.is_active());
    source.set_sleep_time(10);
    assert_eq!(source.sequence_number, 0);
    assert_eq!(
        BinanceSpotSource::snapshot_url("https://api.example/depth?symbol=", "BTCUSDT"),
        "https://api.example/depth?symbol=BTCUSDT&limit=1000"
    );
}

#[test]
fn the_exchange_source_normalizes_events() {
    let mut source = exchange_source();
    source.connected();
    let id = Uuid::from_u128(1);
    let corr = Uuid::from_u128(2);
    let update = Read::Event(Some(Ok(BinanceEvent::DepthUpdate(update_event()))));
    match source.recv(1_000, id, corr, update) {
        Ok((Some(Objects::OrderbookUpdateV1(update)), false)) => {
            assert_eq!(update.get_sequence_number(), 1);
            assert_eq!(update.get_timestamp(), 1_000);
            assert_eq!(update.get_id(), id);
            assert_eq!(update.get_correlation_id(), corr);
            assert_eq!(update.source, "Exchange");
            assert_eq!(update.exchange, "Binance");
            assert_eq!(update.asset_type, "Spot");
            assert_eq!(update.first_update_id, 11);
            assert_eq!(update.final_update_id, 12);
            assert_eq!(update.previous_final_update_id, Some(10));
            assert_eq!(update.bids.len(), 1);
            assert_eq!(update.asks[0].quantity, fx("2"));
        },
        _ => panic!("an update"),
    }
    assert!(matches!(source.recv(1_001, id, corr, Read::Event(None)), Ok((None, false))));
    assert_eq!(source.sequence_number, 2);
    match source.recv(1_002, id, corr, Read::Event(Some(Err("cannot decode trade".to_string())))) {
        Err(e) => assert_eq!(e, "cannot decode trade"),
        _ => panic!("an error"),
    }
    assert_eq!(source.sequence_number, 3);
    match source.recv(1_003, id, corr, Read::Event(Some(Ok(BinanceEvent::Kline(kline_event()))))) {
        Ok((Some(Objects::KlineV1(kline)), false)) => {
            assert_eq!(kline.get_sequence_number(), 4);
            assert_eq!(kline.source, "Exchange");
            assert_eq!(kline.exchange, "Binance");
            assert_eq!(kline.asset_type, "Spot");
        },
        _ => panic!("a kline"),
    }
    match source.recv(1_004, id, corr, Read::Event(Some(Ok(BinanceEvent::Trade(trade_event()))))) {
        Ok((Some(Objects::TradeV1(trade)), false)) => {
            assert_eq!(trade.get_sequence_number(), 5);
            assert_eq!(trade.get_timestamp(), 1_004);
            assert_eq!(trade.price, "100.5");
        },
        _ => panic!("a trade"),
    }
    assert_eq!(source.last_timestamp, 1_004);
}

#[test]
fn an_inactive_source_completes_without_a_read() {
    let mut source = exchange_source();
    assert!(matches!(source.without_read(), Some(Ok((None, true)))));
    let id = Uuid::from_u128(1);
    let corr = Uuid::from_u128(2);
    let update = Read::Event(Some(Ok(BinanceEvent::DepthUpdate(update_event()))));
    assert!(matches!(source.recv(1_000, id, corr, update), Ok((None, true))));
    assert!(matches!(source.recv(1_000, id, corr, Read::Closed), Ok((None, true))));
    assert_eq!(source.sequence_number, 0);
    assert_eq!(source.last_timestamp, 0);
    source.connected();
    assert!(source.without_read().is_none());
}

#[test]
fn a_read_that_times_out_makes_the_source_inactive() {
    let mut source = exchange_source();
    source.connected();
    let id = Uuid::from_u128(1);
    let corr = Uuid::from_u128(2);
    match source.recv(7, id, corr, Read::TimedOut("deadline has elapsed".to_string())) {
        Err(e) => assert_eq!(
            e,
            "Exchange: websocket has not received any data in the last 1000 ms - \
             deadline has elapsed"
        ),
        _ => panic!("an error"),
    }
    assert!(!source.is_active());
    assert_eq!(source.last_timestamp, 0);
    assert_eq!(source.sequence_number, 0);
    assert!(matches!(source.without_read(), Some(Ok((None, true)))));
    assert!(matches!(source.recv(8, id, corr, Read::Event(None)), Ok((None, true))));
}

#[test]
fn reads_without_a_parsed_message_are_errors() {
    let mut source = exchange_source();
    source.connected();
    let id = Uuid::from_u128(1);
    let corr = Uuid::from_u128(2);
    let text = |r: Result<(Option<Objects>, bool), String>| match r {
        Err(e) => e,
        Ok(_) => panic!("an error"),
    };
    assert_eq!(
        text(source.recv(1, id, corr, Read::Uninitialized)),
        "Exchange: Socket is uninitialized"
    );
    assert_eq!(
        text(source.recv(2, id, corr, Read::Closed)),
        "Exchange: websocket has returned no data"
    );
    assert_eq!(
        text(source.recv(3, id, corr, Read::Failed("reset".to_string()))),
        "Exchange: websocket has returned an error - reset"
    );
    assert!(source.is_active());
    assert_eq!(source.last_timestamp, 0);
    assert_eq!(
        text(source.recv(4, id, corr, Read::NotText("bad utf-8".to_string()))),
        "Exchange: cannot decode data as text - bad utf-8"
    );
    assert_eq!(source.last_timestamp, 4);
    assert_eq!(
        text(source.recv(5, id, corr, Read::NotJson("eof".to_string()))),
        "Exchange: cannot decode json - eof"
    );
    assert_eq!(source.last_timestamp, 5);
    assert_eq!(source.sequence_number, 0);
    assert!(source.is_active());
}

#[test]
fn a_fetched_snapshot_is_injected_as_a_book() {
    let source = exchange_source();
    let event = BinanceOrderBookEvent {
        last_update_id: 10,
        bids: vec![BinanceBids { price: "100".to_string(), qty: "1".to_string() }],
        asks: vec![BinanceAsks { price: "101".to_string(), qty: "2".to_string() }],
    };
    match source.snapshot(Uuid::from_u128(1), 500, Uuid::from_u128(2), "BTCUSDT", event) {
        Controls::Inject(Objects::OrderbookV1(book)) => {
            assert_eq!(book.symbol, "BTCUSDT");
            assert_eq!(book.source, "Exchange");
            assert_eq!(book.exchange, "Binance");
            assert_eq!(book.asset_type, "Spot");
            assert_eq!(book.get_sequence_number(), 0);
            assert_eq!(book.get_timestamp(), 500);
            assert_eq!(book.last_update_id, 10);
            assert!(book.first_update);
            assert_eq!(book.best_bid(), (fx("100"), fx("1")));
            assert_eq!(book.best_ask(), (fx("101"), fx("2")));
        },
        _ => panic!("a book to inject"),
    }
}

#[test]
fn the_file_sink_writes_one_line_per_object() {
    let cfg = FileSinkConfig { name: "Out".to_string(), filename: "objects".to_string() };
    let mut sink = FileSink::new(&cfg, "20220921T193930");
    assert_eq!(sink.get_name(), "Out");
    assert_eq!(sink.filename, "objects_20220921T193930");
    assert_eq!(LINE_END, 0x0A);
    assert_eq!(FileSink::line("{\"a\":1}"), b"{\"a\":1}\n".to_vec());
    assert_eq!(FileSink::line(""), vec![0x0A]);
    assert_eq!(FileSink::line("é"), vec![0xC3, 0xA9, 0x0A]);
    assert_eq!(sink.send(Ok(())), Ok(()));
    assert_eq!(sink.send(Ok(())), Ok(()));
    assert_eq!(sink.sent_objs, 2);
    assert_eq!(sink.send(Err("disk full".to_string())), Err("disk full".to_string()));
    assert_eq!(sink.sent_objs, 2);
    match factory::make(&SinkConfigs::FileSink(cfg), "now") {
        Sinks::FileSink(sink) => assert_eq!(sink.filename, "objects_now"),
        _ => panic!("a file sink"),
    }
}

#[test]
fn the_mock_sink_counts_and_measures_lag() {
    let mut sink = MockSink::new(&MockSinkConfig { name: "Null".to_string() });
    assert_eq!(sink.init(), Ok(()));
    assert_eq!(sink.get_name(), "Null");
    let obj = Objects::MockV1(MockV1::new(Uuid::from_u128(1), 1_000, 3, Uuid::from_u128(4)));
    assert_eq!(sink.lag(&obj, 4_500), 3_500);
    assert_eq!(sink.lag(&obj, 500), -500);
    assert_eq!(sink.send(obj), Ok(()));
    assert_eq!(sink.sent_objs, 1);
}

#[test]
fn the_exchange_sink_counts() {
    let mut sink = BinanceSpotSink::new(&BinanceSpotSinkConfig {
        name: "Orders".to_string(),
        base_url: String::new(),
        api_key: String::new(),
        secret_key: String::new(),
        user_agent: String::new(),
        content_type: String::new(),
    });
    assert_eq!(sink.init(), Ok(()));
    assert_eq!(sink.get_name(), "Orders");
    let obj = Objects::MockV1(MockV1::new(Uuid::from_u128(1), 1_000, 3, Uuid::from_u128(4)));
    assert_eq!(sink.send(obj), Ok(()));
    assert_eq!(sink.sent_objs, 1);
}

#[test]
fn orders_in_the_words_of_the_exchange() {
    assert_eq!(BinanceOrderSide::Buy.to_text(), "BUY");
    assert_eq!(BinanceOrderSide::Sell.to_text(), "SELL");
    assert_eq!(BinanceOrderType::Limit.to_text(), "LIMIT");
    assert_eq!(BinanceOrderType::Market.to_text(), "MARKET");
    assert_eq!(BinanceOrderType::StopLoss.to_text(), "STOP_LOSS");
    assert_eq!(BinanceOrderType::StopLossLimit.to_text(), "STOP_LOSS_LIMIT");
    assert_eq!(BinanceOrderType::TakeProfit.to_text(), "TAKE_PROFIT");
    assert_eq!(BinanceOrderType::TakeProfitLimit.to_text(), "TAKE_PROFIT_LIMIT");
    assert_eq!(BinanceOrderType::LimitMaker.to_text(), "LIMIT_MAKER");
    assert_eq!(BinanceOrderSide::from(OrderSide::Buy), BinanceOrderSide::Buy);
    assert_eq!(BinanceOrderSide::from(OrderSide::Sell), BinanceOrderSide::Sell);
    assert_eq!(BinanceOrderType::from(OrderType::Limit), BinanceOrderType::Limit);
    assert_eq!(BinanceOrderType::from(OrderType::Market), BinanceOrderType::Market);
    assert_eq!(BinanceOrderType::from(OrderType::StopLoss), BinanceOrderType::StopLoss);
    assert_eq!(BinanceOrderType::from(OrderType::StopLossLimit), BinanceOrderType::StopLossLimit);
    assert_eq!(BinanceOrderType::from(OrderType::TakeProfit), BinanceOrderType::TakeProfit);
    assert_eq!(
        BinanceOrderType::from(OrderType::TakeProfitLimit),
        BinanceOrderType::TakeProfitLimit
    );
    assert_eq!(BinanceOrderType::from(OrderType::LimitMaker), BinanceOrderType::LimitMaker);

    let order = NewOrderV1::new(
        Uuid::from_u128(5),
        6,
        7,
        Uuid::from_u128(8),
        "BTCUSDT",
        OrderSide::Sell,
        OrderType::LimitMaker,
        fx("0.5"),
        fx("27123.25"),
    );
    let wire = BinanceNewOrder::from_order(order);
    assert_eq!(wire.symbol, "BTCUSDT");
    assert_eq!(wire.order_side, BinanceOrderSide::Sell);
    assert_eq!(wire.order_type, BinanceOrderType::LimitMaker);
    assert_eq!(wire.quantity, "0.5");
    assert_eq!(wire.price, "27123.25");
}

#[test]
fn the_balance_of_an_asset_is_the_first_of_that_asset() {
    let balance = |asset: &str, free: &str| BinanceBalance {
        asset: asset.to_string(),
        free: free.to_string(),
        locked: "0".to_string(),
    };
    let balances = vec![balance("BTC", "1"), balance("ETH", "2"), balance("BTC", "3")];
    assert_eq!(find_balance(&balances, "BTC"), Some(0));
    assert_eq!(find_balance(&balances, "ETH"), Some(1));
    assert_eq!(find_balance(&balances, "XRP"), None);
    assert_eq!(find_balance(&vec![], "BTC"), None);
}

#[test]
fn the_address_of_the_exchange_must_parse() {
    let source = exchange_source();
    match source.address() {
        Ok(url) => {
            assert_eq!(url, "wss://stream.example/stream?streams=btcusdt@depth/ethusdt@trade")
        },
        Err(_) => panic!("the address is sound"),
    }
    let upper = BinanceSpotSource::new(&BinanceSpotSourceConfig {
        name: "Exchange".to_string(),
        queue_size: 7,
        downstreams: vec![],
        base_url: "WSS://Stream.Example".to_string(),
        snapshot_url: String::new(),
        symbols: vec![],
        wakeup_interval: 1_000,
    });
    match upper.address() {
        Ok(url) => assert_eq!(url, "wss://stream.example/"),
        Err(_) => panic!("the address is sound"),
    }
    let broken = BinanceSpotSource::new(&BinanceSpotSourceConfig {
        name: "Exchange".to_string(),
        queue_size: 7,
        downstreams: vec![],
        base_url: "not an address".to_string(),
        snapshot_url: String::new(),
        symbols: vec!["/x".to_string()],
        wakeup_interval: 1_000,
    });
    match broken.address() {
        Err(e) => assert_eq!(e.url, "not an address/x"),
        Ok(_) => panic!("the text is no address"),
    }
}
