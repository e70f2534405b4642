//! A trade as the exchange reported it.

use crate::components::sources::binance::model::BinanceTradeEvent;
use uuid::Uuid;
use vstd::prelude::*;

verus! {

/// A normalized trade.
#[derive(Debug)]
pub struct TradeV1 {
    pub id: Uuid,
    pub timestamp: i64,
    pub sequence_nr: u64,
    pub correlation_id: Uuid,
    pub source: String,
    pub exchange: String,
    pub asset_type: String,
    pub event_time: u64,
    pub symbol: String,
    pub trade_id: u64,
    pub price: String,
    pub quantity: String,
    pub buyer_order_id: u64,
    pub seller_order_id: u64,
    pub trade_order_time: u64,
    pub is_buyer_maker: bool,
    pub ignore: bool,
}

impl TradeV1 {
    /// The trade holds what the event holds, field by field.
    pub open spec fn carries(&self, event: BinanceTradeEvent) -> bool {
        &&& self.event_time == event.event_time
        &&& self.symbol == event.symbol
        &&& self.trade_id == event.trade_id
        &&& self.price == event.price
        &&& self.quantity == event.qty
        &&& self.buyer_order_id == event.buyer_order_id
        &&& self.seller_order_id == event.seller_order_id
        &&& self.trade_order_time == event.trade_order_time
        &&& self.is_buyer_maker == event.is_buyer_maker
        &&& self.ignore == event.m_ignore
    }

    /// Builds the normalized trade from a trade event of the exchange.
    pub fn from_binance(
        id: Uuid,
        timestamp: i64,
        sequence_nr: u64,
        correlation_id: Uuid,
        source: &str,
        exchange: &str,
        asset_type: &str,
        event: BinanceTradeEvent,
    ) -> (r: TradeV1)
        ensures
            r.id == id,
            r.timestamp == timestamp,
            r.sequence_nr == sequence_nr,
            r.correlation_id == correlation_id,
            r.source@ == source@,
            r.exchange@ == exchange@,
            r.asset_type@ == asset_type@,
            r.carries(event),
    {
        TradeV1 {
            id,
            timestamp,
            sequence_nr,
            correlation_id,
            source: source.to_owned(),
            exchange: exchange.to_owned(),
            asset_type: asset_type.to_owned(),
            event_time: event.event_time,
            symbol: event.symbol,
            trade_id: event.trade_id,
            price: event.price,
            quantity: event.qty,
            buyer_order_id: event.buyer_order_id,
            seller_order_id: event.seller_order_id,
            trade_order_time: event.trade_order_time,
            is_buyer_maker: event.is_buyer_maker,
            ignore: event.m_ignore,
        }
    }

    pub fn get_type(&self) -> (r: u64)
        ensures
            r == 17,
    {
        17
    }

    pub fn get_version(&self) -> (r: u64)
        ensures
            r == 1,
    {
        1
    }

    pub fn get_id(&self) -> (r: Uuid)
        ensures
            r == self.id,
    {
        self.id
    }

    pub fn get_timestamp(&self) -> (r: i64)
        ensures
            r == self.timestamp,
    {
        self.timestamp
    }

    pub fn get_sequence_number(&self) -> (r: u64)
        ensures
            r == self.sequence_nr,
    {
        self.sequence_nr
    }

    pub fn get_correlation_id(&self) -> (r: Uuid)
        ensures
            r == self.correlation_id,
    {
        self.correlation_id
    }
}

impl Clone for TradeV1 {
    fn clone(&self) -> (r: TradeV1)
        ensures
            r == *self,
    {
        TradeV1 {
            id: self.id,
            timestamp: self.timestamp,
            sequence_nr: self.sequence_nr,
            correlation_id: self.correlation_id,
            source: self.source.clone(),
            exchange: self.exchange.clone(),
            asset_type: self.asset_type.clone(),
            event_time: self.event_time,
            symbol: self.symbol.clone(),
            trade_id: self.trade_id,
            price: self.price.clone(),
            quantity: self.quantity.clone(),
            buyer_order_id: self.buyer_order_id,
            seller_order_id: self.seller_order_id,
            trade_order_time: self.trade_order_time,
            is_buyer_maker: self.is_buyer_maker,
            ignore: self.ignore,
        }
    }
}

} // verus!
