//! The normalized objects that travel through the pipeline.

pub mod book_side;
pub mod common;
pub mod fixed_point;
pub mod kline;
pub mod level;
pub mod market;
pub mod mock;
pub mod new_order;
pub mod orderbook;
pub mod orderbook_update;
pub mod symbol_table;
pub mod trade;

use uuid::Uuid;
use vstd::prelude::*;

verus! {

/// One normalized object of any kind.
pub enum Objects {
    MockV1(mock::MockV1),
    KlineV1(kline::KlineV1),
    NewOrderV1(new_order::NewOrderV1),
    OrderbookV1(orderbook::OrderbookV1),
    OrderbookUpdateV1(orderbook_update::OrderbookUpdateV1),
    TradeV1(trade::TradeV1),
}

impl Objects {
    /// The number that tells the kinds of objects apart.
    pub open spec fn spec_type(&self) -> u64 {
        match self {
            Objects::MockV1(_) => 1,
            Objects::KlineV1(_) => 16,
            Objects::NewOrderV1(_) => 20,
            Objects::OrderbookV1(_) => 19,
            Objects::OrderbookUpdateV1(_) => 18,
            Objects::TradeV1(_) => 17,
        }
    }

    /// The id in the object's header.
    pub open spec fn spec_id(&self) -> Uuid {
        match self {
            Objects::MockV1(obj) => obj.id,
            Objects::KlineV1(obj) => obj.id,
            Objects::NewOrderV1(obj) => obj.id,
            Objects::OrderbookV1(obj) => obj.id,
            Objects::OrderbookUpdateV1(obj) => obj.id,
            Objects::TradeV1(obj) => obj.id,
        }
    }

    /// The wire timestamp in the object's header, in nanoseconds.
    pub open spec fn spec_timestamp(&self) -> i64 {
        match self {
            Objects::MockV1(obj) => obj.timestamp,
            Objects::KlineV1(obj) => obj.timestamp,
            Objects::NewOrderV1(obj) => obj.timestamp,
            Objects::OrderbookV1(obj) => obj.timestamp,
            Objects::OrderbookUpdateV1(obj) => obj.timestamp,
            Objects::TradeV1(obj) => obj.timestamp,
        }
    }

    /// The sequence number in the object's header.
    pub open spec fn spec_sequence_number(&self) -> u64 {
        match self {
            Objects::MockV1(obj) => obj.sequence_number,
            Objects::KlineV1(obj) => obj.sequence_nr,
            Objects::NewOrderV1(obj) => obj.sequence_nr,
            Objects::OrderbookV1(obj) => obj.sequence_nr,
            Objects::OrderbookUpdateV1(obj) => obj.sequence_nr,
            Objects::TradeV1(obj) => obj.sequence_nr,
        }
    }

    /// The correlation id in the object's header.
    pub open spec fn spec_correlation_id(&self) -> Uuid {
        match self {
            Objects::MockV1(obj) => obj.correlation_id,
            Objects::KlineV1(obj) => obj.correlation_id,
            Objects::NewOrderV1(obj) => obj.correlation_id,
            Objects::OrderbookV1(obj) => obj.correlation_id,
            Objects::OrderbookUpdateV1(obj) => obj.correlation_id,
            Objects::TradeV1(obj) => obj.correlation_id,
        }
    }

    /// The other object is of the same kind and holds the same: books and
    /// updates as mathematical values, every other kind field by field.
    pub open spec fn same_as(&self, other: Objects) -> bool {
        match (*self, other) {
            (Objects::MockV1(a), Objects::MockV1(b)) => a == b,
            (Objects::KlineV1(a), Objects::KlineV1(b)) => a == b,
            (Objects::NewOrderV1(a), Objects::NewOrderV1(b)) => a == b,
            (Objects::OrderbookV1(a), Objects::OrderbookV1(b)) => a@ == b@,
            (Objects::OrderbookUpdateV1(a), Objects::OrderbookUpdateV1(b)) => a@ == b@,
            (Objects::TradeV1(a), Objects::TradeV1(b)) => a == b,
            _ => false,
        }
    }

    pub fn get_type(&self) -> (r: u64)
        ensures
            r == self.spec_type(),
    {
        match self {
            Objects::MockV1(obj) => obj.get_type(),
            Objects::KlineV1(obj) => obj.get_type(),
            Objects::NewOrderV1(obj) => obj.get_type(),
            Objects::OrderbookV1(obj) => obj.get_type(),
            Objects::OrderbookUpdateV1(obj) => obj.get_type(),
            Objects::TradeV1(obj) => obj.get_type(),
        }
    }

    pub fn get_version(&self) -> (r: u64)
        ensures
            r == 1,
    {
        match self {
            Objects::MockV1(obj) => obj.get_version(),
            Objects::KlineV1(obj) => obj.get_version(),
            Objects::NewOrderV1(obj) => obj.get_version(),
            Objects::OrderbookV1(obj) => obj.get_version(),
            Objects::OrderbookUpdateV1(obj) => obj.get_version(),
            Objects::TradeV1(obj) => obj.get_version(),
        }
    }

    pub fn get_id(&self) -> (r: Uuid)
        ensures
            r == self.spec_id(),
    {
        match self {
            Objects::MockV1(obj) => obj.get_id(),
            Objects::KlineV1(obj) => obj.get_id(),
            Objects::NewOrderV1(obj) => obj.get_id(),
            Objects::OrderbookV1(obj) => obj.get_id(),
            Objects::OrderbookUpdateV1(obj) => obj.get_id(),
            Objects::TradeV1(obj) => obj.get_id(),
        }
    }

    pub fn get_timestamp(&self) -> (r: i64)
        ensures
            r == self.spec_timestamp(),
    {
        match self {
            Objects::MockV1(obj) => obj.get_timestamp(),
            Objects::KlineV1(obj) => obj.get_timestamp(),
            Objects::NewOrderV1(obj) => obj.get_timestamp(),
            Objects::OrderbookV1(obj) => obj.get_timestamp(),
            Objects::OrderbookUpdateV1(obj) => obj.get_timestamp(),
            Objects::TradeV1(obj) => obj.get_timestamp(),
        }
    }

    pub fn get_sequence_number(&self) -> (r: u64)
        ensures
            r == self.spec_sequence_number(),
    {
        match self {
            Objects::MockV1(obj) => obj.get_sequence_number(),
            Objects::KlineV1(obj) => obj.get_sequence_number(),
            Objects::NewOrderV1(obj) => obj.get_sequence_number(),
            Objects::OrderbookV1(obj) => obj.get_sequence_number(),
            Objects::OrderbookUpdateV1(obj) => obj.get_sequence_number(),
            Objects::TradeV1(obj) => obj.get_sequence_number(),
        }
    }

    pub fn get_correlation_id(&self) -> (r: Uuid)
        ensures
            r == self.spec_correlation_id(),
    {
        match self {
            Objects::MockV1(obj) => obj.get_correlation_id(),
            Objects::KlineV1(obj) => obj.get_correlation_id(),
            Objects::NewOrderV1(obj) => obj.get_correlation_id(),
            Objects::OrderbookV1(obj) => obj.get_correlation_id(),
            Objects::OrderbookUpdateV1(obj) => obj.get_correlation_id(),
            Objects::TradeV1(obj) => obj.get_correlation_id(),
        }
    }
}

impl Clone for Objects {
    fn clone(&self) -> (r: Objects)
        ensures
            r.spec_type() == self.spec_type(),
            r.spec_id() == self.spec_id(),
            r.spec_timestamp() == self.spec_timestamp(),
            r.spec_sequence_number() == self.spec_sequence_number(),
            r.spec_correlation_id() == self.spec_correlation_id(),
            self.same_as(r),
    {
        match self {
            Objects::MockV1(obj) => Objects::MockV1(obj.clone()),
            Objects::KlineV1(obj) => Objects::KlineV1(obj.clone()),
            Objects::NewOrderV1(obj) => Objects::NewOrderV1(obj.clone()),
            Objects::OrderbookV1(obj) => Objects::OrderbookV1(obj.clone()),
            Objects::OrderbookUpdateV1(obj) => Objects::OrderbookUpdateV1(obj.clone()),
            Objects::TradeV1(obj) => Objects::TradeV1(obj.clone()),
        }
    }
}

} // verus!
