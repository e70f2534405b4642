//! A candlestick as the exchange reported it.

use crate::components::sources::binance::model::BinanceKlineEvent;
use uuid::Uuid;
use vstd::prelude::*;

verus! {

/// A normalized candlestick.
#[derive(Debug)]
pub struct KlineV1 {
    pub id: Uuid,
    pub timestamp: i64,
    pub sequence_nr: u64,
    pub correlation_id: Uuid,
    pub source: String,
    pub exchange: String,
    pub asset_type: String,
    pub event_time: u64,
    pub open_time: i64,
    pub close_time: i64,
    pub symbol: String,
    pub interval: String,
    pub first_trade_id: i64,
    pub last_trade_id: i64,
    pub open: String,
    pub close: String,
    pub high: String,
    pub low: String,
    pub volume: String,
    pub number_of_trades: i64,
    pub is_final_bar: bool,
    pub quote_asset_volume: String,
    pub taker_buy_base_asset_volume: String,
    pub taker_buy_quote_asset_volume: String,
    pub ignore: String,
}

impl KlineV1 {
    /// The candlestick holds what the event holds, field by field. The
    /// symbol is the one of the candlestick inside the event.
    pub open spec fn carries(&self, event: BinanceKlineEvent) -> bool {
        &&& self.event_time == event.event_time
        &&& self.open_time == event.kline.open_time
        &&& self.close_time == event.kline.close_time
        &&& self.symbol == event.kline.symbol
        &&& self.interval == event.kline.interval
        &&& self.first_trade_id == event.kline.first_trade_id
        &&& self.last_trade_id == event.kline.last_trade_id
        &&& self.open == event.kline.open
        &&& self.close == event.kline.close
        &&& self.high == event.kline.high
        &&& self.low == event.kline.low
        &&& self.volume == event.kline.volume
        &&& self.number_of_trades == event.kline.number_of_trades
        &&& self.is_final_bar == event.kline.is_final_bar
        &&& self.quote_asset_volume == event.kline.quote_asset_volume
        &&& self.taker_buy_base_asset_volume == event.kline.taker_buy_base_asset_volume
        &&& self.taker_buy_quote_asset_volume == event.kline.taker_buy_quote_asset_volume
        &&& self.ignore == event.kline.ignore
    }

    /// Builds the normalized candlestick from a kline event of the
    /// exchange.
    pub fn from_binance(
        id: Uuid,
        timestamp: i64,
        sequence_nr: u64,
        correlation_id: Uuid,
        source: &str,
        exchange: &str,
        asset_type: &str,
        event: BinanceKlineEvent,
    ) -> (r: KlineV1)
        ensures
            r.id == id,
            r.timestamp == timestamp,
            r.sequence_nr == sequence_nr,
            r.correlation_id == correlation_id,
            r.source@ == source@,
            r.exchange@ == exchange@,
            r.asset_type@ == asset_type@,
            r.carries(event),
    {
        let kline = event.kline;
        KlineV1 {
            id,
            timestamp,
            sequence_nr,
            correlation_id,
            source: source.to_owned(),
            exchange: exchange.to_owned(),
            asset_type: asset_type.to_owned(),
            event_time: event.event_time,
            open_time: kline.open_time,
            close_time: kline.close_time,
            symbol: kline.symbol,
            interval: kline.interval,
            first_trade_id: kline.first_trade_id,
            last_trade_id: kline.last_trade_id,
            open: kline.open,
            close: kline.close,
            high: kline.high,
            low: kline.low,
            volume: kline.volume,
            number_of_trades: kline.number_of_trades,
            is_final_bar: kline.is_final_bar,
            quote_asset_volume: kline.quote_asset_volume,
            taker_buy_base_asset_volume: kline.taker_buy_base_asset_volume,
            taker_buy_quote_asset_volume: kline.taker_buy_quote_asset_volume,
            ignore: kline.ignore,
        }
    }

    pub fn get_type(&self) -> (r: u64)
        ensures
            r == 16,
    {
        16
    }

    pub fn get_version(&self) -> (r: u64)
        ensures
            r == 1,
    {
        1
    }

    pub fn get_id(&self) -> (r: Uuid)
        ensures
            r == self.id,
    {
        self.id
    }

    pub fn get_timestamp(&self) -> (r: i64)
        ensures
            r == self.timestamp,
    {
        self.timestamp
    }

    pub fn get_sequence_number(&self) -> (r: u64)
        ensures
            r == self.sequence_nr,
    {
        self.sequence_nr
    }

    pub fn get_correlation_id(&self) -> (r: Uuid)
        ensures
            r == self.correlation_id,
    {
        self.correlation_id
    }
}

impl Clone for KlineV1 {
    fn clone(&self) -> (r: KlineV1)
        ensures
            r == *self,
    {
        KlineV1 {
            id: self.id,
            timestamp: self.timestamp,
            sequence_nr: self.sequence_nr,
            correlation_id: self.correlation_id,
            source: self.source.clone(),
            exchange: self.exchange.clone(),
            asset_type: self.asset_type.clone(),
            event_time: self.event_time,
            open_time: self.open_time,
            close_time: self.close_time,
            symbol: self.symbol.clone(),
            interval: self.interval.clone(),
            first_trade_id: self.first_trade_id,
            last_trade_id: self.last_trade_id,
            open: self.open.clone(),
            close: self.close.clone(),
            high: self.high.clone(),
            low: self.low.clone(),
            volume: self.volume.clone(),
            number_of_trades: self.number_of_trades,
            is_final_bar: self.is_final_bar,
            quote_asset_volume: self.quote_asset_volume.clone(),
            taker_buy_base_asset_volume: self.taker_buy_base_asset_volume.clone(),
            taker_buy_quote_asset_volume: self.taker_buy_quote_asset_volume.clone(),
            ignore: self.ignore.clone(),
        }
    }
}

} // verus!
