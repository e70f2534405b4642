//! A request to place an order.

use crate::objects::fixed_point::Fixed64;
use uuid::Uuid;
use vstd::prelude::*;

verus! {

/// The side of an order.
#[derive(Clone, Copy, Debug, PartialEq, Eq, Structural)]
pub enum OrderSide {
    Buy,
    Sell,
}

/// The type of an order.
#[derive(Clone, Copy, Debug, PartialEq, Eq, Structural)]
pub enum OrderType {
    Limit,
    Market,
    StopLoss,
    StopLossLimit,
    TakeProfit,
    TakeProfitLimit,
    LimitMaker,
}

/// A normalized request for an order.
#[derive(Debug)]
pub struct NewOrderV1 {
    pub id: Uuid,
    pub timestamp: i64,
    pub sequence_nr: u64,
    pub correlation_id: Uuid,
    pub symbol: String,
    pub order_side: OrderSide,
    pub order_type: OrderType,
    pub quantity: Fixed64,
    pub price: Fixed64,
}

impl NewOrderV1 {
    pub fn new(
        id: Uuid,
        timestamp: i64,
        sequence_nr: u64,
        correlation_id: Uuid,
        symbol: &str,
        order_side: OrderSide,
        order_type: OrderType,
        quantity: Fixed64,
        price: Fixed64,
    ) -> (r: NewOrderV1)
        ensures
            r.id == id,
            r.timestamp == timestamp,
            r.sequence_nr == sequence_nr,
            r.correlation_id == correlation_id,
            r.symbol@ == symbol@,
            r.order_side == order_side,
            r.order_type == order_type,
            r.quantity == quantity,
            r.price == price,
    {
        NewOrderV1 {
            id,
            timestamp,
            sequence_nr,
            correlation_id,
            symbol: symbol.to_owned(),
            order_side,
            order_type,
            quantity,
            price,
        }
    }

    pub fn get_type(&self) -> (r: u64)
        ensures
            r == 20,
    {
        20
    }

    pub fn get_version(&self) -> (r: u64)
        ensures
            r == 1,
    {
        1
    }

    pub fn get_id(&self) -> (r: Uuid)
        ensures
            r == self.id,
    {
        self.id
    }

    pub fn get_timestamp(&self) -> (r: i64)
        ensures
            r == self.timestamp,
    {
        self.timestamp
    }

    pub fn get_sequence_number(&self) -> (r: u64)
        ensures
            r == self.sequence_nr,
    {
        self.sequence_nr
    }

    pub fn get_correlation_id(&self) -> (r: Uuid)
        ensures
            r == self.correlation_id,
    {
        self.correlation_id
    }
}

impl Clone for NewOrderV1 {
    fn clone(&self) -> (r: NewOrderV1)
        ensures
            r == *self,
    {
        NewOrderV1 {
            id: self.id,
            timestamp: self.timestamp,
            sequence_nr: self.sequence_nr,
            correlation_id: self.correlation_id,
            symbol: self.symbol.clone(),
            order_side: self.order_side,
            order_type: self.order_type,
            quantity: self.quantity,
            price: self.price,
        }
    }
}

} // verus!
