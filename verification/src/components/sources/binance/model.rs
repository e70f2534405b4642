//! Events of the exchange as they arrive on the wire, after decoding.
//! Prices and quantities are still decimal text here.

use vstd::prelude::*;

verus! {

/// One ask entry of a depth event: `[price, quantity]`.
#[derive(Clone, Debug)]
pub struct BinanceAsks {
    pub price: String,
    pub qty: String,
}

/// One bid entry of a depth event: `[price, quantity]`.
#[derive(Clone, Debug)]
pub struct BinanceBids {
    pub price: String,
    pub qty: String,
}

/// The candlestick inside a kline event.
#[derive(Clone, Debug)]
pub struct BinanceKline {
    pub open_time: i64,
    pub close_time: i64,
    pub symbol: String,
    pub interval: String,
    pub first_trade_id: i64,
    pub last_trade_id: i64,
    pub open: String,
    pub close: String,
    pub high: String,
    pub low: String,
    pub volume: String,
    pub number_of_trades: i64,
    pub is_final_bar: bool,
    pub quote_asset_volume: String,
    pub taker_buy_base_asset_volume: String,
    pub taker_buy_quote_asset_volume: String,
    pub ignore: String,
}

/// A candlestick event.
#[derive(Clone, Debug)]
pub struct BinanceKlineEvent {
    pub event_type: String,
    pub event_time: u64,
    pub symbol: String,
    pub kline: BinanceKline,
}

/// A full book as the snapshot endpoint returns it.
#[derive(Clone, Debug)]
pub struct BinanceOrderBookEvent {
    pub last_update_id: u64,
    pub bids: Vec<BinanceBids>,
    pub asks: Vec<BinanceAsks>,
}

/// An incremental depth event.
#[derive(Clone, Debug)]
pub struct BinanceOrderbookUpdateEvent {
    pub event_type: String,
    pub event_time: u64,
    pub symbol: String,
    pub first_update_id: u64,
    pub final_update_id: u64,
    pub previous_final_update_id: Option<u64>,
    pub bids: Vec<BinanceBids>,
    pub asks: Vec<BinanceAsks>,
}

/// A trade event.
#[derive(Clone, Debug)]
pub struct BinanceTradeEvent {
    pub event_type: String,
    pub event_time: u64,
    pub symbol: String,
    pub trade_id: u64,
    pub price: String,
    pub qty: String,
    pub buyer_order_id: u64,
    pub seller_order_id: u64,
    pub trade_order_time: u64,
    pub is_buyer_maker: bool,
    pub m_ignore: bool,
}

/// The decimal texts of a list of bid entries, as pairs of price and
/// quantity.
pub open spec fn bids_text(entries: Seq<BinanceBids>) -> Seq<(Seq<char>, Seq<char>)> {
    Seq::new(entries.len(), |i: int| (entries[i].price@, entries[i].qty@))
}

/// The decimal texts of a list of ask entries, as pairs of price and
/// quantity.
pub open spec fn asks_text(entries: Seq<BinanceAsks>) -> Seq<(Seq<char>, Seq<char>)> {
    Seq::new(entries.len(), |i: int| (entries[i].price@, entries[i].qty@))
}

} // verus!
