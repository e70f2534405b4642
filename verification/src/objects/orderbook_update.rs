//! An incremental change to an order book, identified by the inclusive
//! range of update ids that it covers.

use crate::components::sources::binance::model::{
    asks_text, bids_text, BinanceAsks, BinanceBids, BinanceOrderbookUpdateEvent,
};
use crate::objects::common::{copy_levels, parse_level, parsed_levels, HeaderView};
use crate::objects::level::Level;
use uuid::Uuid;
use vstd::prelude::*;

verus! {

/// A normalized update: its header, the range of ids that it covers, and
/// the levels that it changes on either side.
pub struct OrderbookUpdateV1 {
    pub id: Uuid,
    pub timestamp: i64,
    pub sequence_nr: u64,
    pub correlation_id: Uuid,
    pub source: String,
    pub exchange: String,
    pub asset_type: String,
    pub event_type: String,
    pub event_time: u64,
    pub symbol: String,
    pub first_update_id: u64,
    pub final_update_id: u64,
    pub previous_final_update_id: Option<u64>,
    pub bids: Vec<Level>,
    pub asks: Vec<Level>,
}

/// An update as a mathematical value.
pub struct UpdateView {
    pub header: HeaderView,
    pub event_type: Seq<char>,
    pub event_time: u64,
    pub symbol: Seq<char>,
    pub first_update_id: u64,
    pub final_update_id: u64,
    pub previous_final_update_id: Option<u64>,
    pub bids: Seq<Level>,
    pub asks: Seq<Level>,
}

impl View for OrderbookUpdateV1 {
    type V = UpdateView;

    open spec fn view(&self) -> UpdateView {
        UpdateView {
            header: HeaderView {
                id: self.id,
                timestamp: self.timestamp,
                sequence_nr: self.sequence_nr,
                correlation_id: self.correlation_id,
                source: self.source@,
                exchange: self.exchange@,
                asset_type: self.asset_type@,
            },
            event_type: self.event_type@,
            event_time: self.event_time,
            symbol: self.symbol@,
            first_update_id: self.first_update_id,
            final_update_id: self.final_update_id,
            previous_final_update_id: self.previous_final_update_id,
            bids: self.bids@,
            asks: self.asks@,
        }
    }
}

/// Parses the bid entries of an event; an entry with a refused text is
/// left out.
pub fn parse_bids(entries: &Vec<BinanceBids>) -> (r: Vec<Level>)
    ensures
        r@ == parsed_levels(bids_text(entries@)),
{
    let ghost text = bids_text(entries@);
    let mut out: Vec<Level> = Vec::new();
    let mut i: usize = 0;
    while i < entries.len()
        invariant
            i <= entries.len(),
            text == bids_text(entries@),
            out@ == parsed_levels(text.subrange(0, i as int)),
        decreases entries.len() - i,
    {
        proof {
            assert(text.subrange(0, i + 1).drop_last() =~= text.subrange(0, i as int));
        }
        match parse_level(entries[i].price.as_str(), entries[i].qty.as_str()) {
            Some(level) => out.push(level),
            None => {},
        }
        i = i + 1;
    }
    proof {
        assert(text.subrange(0, entries.len() as int) =~= text);
    }
    out
}

/// Parses the ask entries of an event; an entry with a refused text is
/// left out.
pub fn parse_asks(entries: &Vec<BinanceAsks>) -> (r: Vec<Level>)
    ensures
        r@ == parsed_levels(asks_text(entries@)),
{
    let ghost text = asks_text(entries@);
    let mut out: Vec<Level> = Vec::new();
    let mut i: usize = 0;
    while i < entries.len()
        invariant
            i <= entries.len(),
            text == asks_text(entries@),
            out@ == parsed_levels(text.subrange(0, i as int)),
        decreases entries.len() - i,
    {
        proof {
            assert(text.subrange(0, i + 1).drop_last() =~= text.subrange(0, i as int));
        }
        match parse_level(entries[i].price.as_str(), entries[i].qty.as_str()) {
            Some(level) => out.push(level),
            None => {},
        }
        i = i + 1;
    }
    proof {
        assert(text.subrange(0, entries.len() as int) =~= text);
    }
    out
}

impl OrderbookUpdateV1 {
    /// Builds the normalized update from a depth event of the exchange.
    /// The levels are the entries of the event whose texts parse, in
    /// order.
    pub fn from_binance(
        id: Uuid,
        timestamp: i64,
        sequence_nr: u64,
        correlation_id: Uuid,
        source: &str,
        exchange: &str,
        asset_type: &str,
        event: BinanceOrderbookUpdateEvent,
    ) -> (r: OrderbookUpdateV1)
        ensures
            r@ == (UpdateView {
                header: HeaderView {
                    id,
                    timestamp,
                    sequence_nr,
                    correlation_id,
                    source: source@,
                    exchange: exchange@,
                    asset_type: asset_type@,
                },
                event_type: event.event_type@,
                event_time: event.event_time,
                symbol: event.symbol@,
                first_update_id: event.first_update_id,
                final_update_id: event.final_update_id,
                previous_final_update_id: event.previous_final_update_id,
                bids: parsed_levels(bids_text(event.bids@)),
                asks: parsed_levels(asks_text(event.asks@)),
            }),
    {
        let bids = parse_bids(&event.bids);
        let asks = parse_asks(&event.asks);
        OrderbookUpdateV1 {
            id,
            timestamp,
            sequence_nr,
            correlation_id,
            source: source.to_owned(),
            exchange: exchange.to_owned(),
            asset_type: asset_type.to_owned(),
            event_type: event.event_type,
            event_time: event.event_time,
            symbol: event.symbol,
            first_update_id: event.first_update_id,
            final_update_id: event.final_update_id,
            previous_final_update_id: event.previous_final_update_id,
            bids,
            asks,
        }
    }

    pub fn get_type(&self) -> (r: u64)
        ensures
            r == 18,
    {
        18
    }

    pub fn get_version(&self) -> (r: u64)
        ensures
            r == 1,
    {
        1
    }

    pub fn get_id(&self) -> (r: Uuid)
        ensures
            r == self.id,
    {
        self.id
    }

    pub fn get_timestamp(&self) -> (r: i64)
        ensures
            r == self.timestamp,
    {
        self.timestamp
    }

    pub fn get_sequence_number(&self) -> (r: u64)
        ensures
            r == self.sequence_nr,
    {
        self.sequence_nr
    }

    pub fn get_correlation_id(&self) -> (r: Uuid)
        ensures
            r == self.correlation_id,
    {
        self.correlation_id
    }
}

impl Clone for OrderbookUpdateV1 {
    fn clone(&self) -> (r: OrderbookUpdateV1)
        ensures
            r@ == self@,
    {
        OrderbookUpdateV1 {
            id: self.id,
            timestamp: self.timestamp,
            sequence_nr: self.sequence_nr,
            correlation_id: self.correlation_id,
            source: self.source.clone(),
            exchange: self.exchange.clone(),
            asset_type: self.asset_type.clone(),
            event_type: self.event_type.clone(),
            event_time: self.event_time,
            symbol: self.symbol.clone(),
            first_update_id: self.first_update_id,
            final_update_id: self.final_update_id,
            previous_final_update_id: self.previous_final_update_id,
            bids: copy_levels(&self.bids),
            asks: copy_levels(&self.asks),
        }
    }
}

} // verus!
