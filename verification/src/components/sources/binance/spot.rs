//! The source that listens to the exchange: what it connects to, and what
//! it makes of each event that arrives.

use crate::components::control::Controls;
use crate::components::sources::binance::model::{
    asks_text, bids_text, BinanceKlineEvent, BinanceOrderBookEvent, BinanceOrderbookUpdateEvent,
    BinanceTradeEvent,
};
use crate::config::sources::BinanceSpotSourceConfig;
use crate::objects::Objects;
use crate::objects::common::parsed_levels;
use crate::objects::kline::KlineV1;
use crate::objects::orderbook::OrderbookV1;
use crate::objects::orderbook_update::OrderbookUpdateV1;
use crate::objects::trade::TradeV1;
use crate::utils::count::{count, counted};
use crate::utils::text::{decimal, push_decimal, same_text};
use uuid::Uuid;
use vstd::prelude::*;
use vstd::string::StringExecFns;

verus! {

/// The kind of an event, as its tag tells it.
#[derive(Clone, Copy, Debug, PartialEq, Eq, Structural)]
pub enum EventKind {
    DepthUpdate,
    Kline,
    Trade,
    Unknown,
}

/// An event of a known kind, decoded.
pub enum BinanceEvent {
    DepthUpdate(BinanceOrderbookUpdateEvent),
    Kline(BinanceKlineEvent),
    Trade(BinanceTradeEvent),
}

/// The kind that a tag stands for; an event without a tag is of unknown
/// kind.
pub open spec fn kind_of(tag: Option<Seq<char>>) -> EventKind {
    match tag {
        Some(text) => if text == "depthUpdate"@ {
            EventKind::DepthUpdate
        } else if text == "kline"@ {
            EventKind::Kline
        } else if text == "trade"@ {
            EventKind::Trade
        } else {
            EventKind::Unknown
        },
        None => EventKind::Unknown,
    }
}

/// The kind of an event from its tag.
pub fn classify(tag: Option<&str>) -> (r: EventKind)
    ensures
        r == kind_of(
            match tag {
                Some(text) => Some(text@),
                None => None,
            },
        ),
{
    match tag {
        Some(text) => {
            if same_text(text, "depthUpdate") {
                EventKind::DepthUpdate
            } else if same_text(text, "kline") {
                EventKind::Kline
            } else if same_text(text, "trade") {
                EventKind::Trade
            } else {
                EventKind::Unknown
            }
        },
        None => EventKind::Unknown,
    }
}

/// All texts of a list joined in order.
pub open spec fn joined(parts: Seq<String>) -> Seq<char>
    decreases parts.len(),
{
    if parts.len() == 0 {
        Seq::empty()
    } else {
        joined(parts.drop_last()) + parts.last()@
    }
}

/// The text that `url` gives an address in its normal form, `None` where
/// it refuses the address.
pub uninterp spec fn url_normal_form(text: Seq<char>) -> Option<Seq<char>>;

/// `url::ParseError`: why `url` refused a text.
#[verifier::external_type_specification]
#[verifier::external_body]
pub struct ExParseError(url::ParseError);

/// `url::Url::parse`, and the text of the parsed address. The contract
/// names the outcome: the same text gives the same address, or the same
/// refusal.
#[verifier::external_body]
fn parse_url(text: &str) -> (r: Result<String, url::ParseError>)
    ensures
        r is Ok <==> url_normal_form(text@) is Some,
        r is Ok ==> Some(r->Ok_0@) == url_normal_form(text@),
{
    match url::Url::parse(text) {
        Ok(url) => Ok(String::from(url)),
        Err(e) => Err(e),
    }
}

/// The address of the exchange is no address.
pub struct AddressError {
    /// The text that was taken for an address.
    pub url: String,
    /// What is wrong with it.
    pub cause: url::ParseError,
}

/// The source with what it connects to and what it has counted and
/// stamped so far.
pub struct BinanceSpotSource {
    pub name: String,
    pub queue_size: usize,
    pub sequence_number: u64,
    pub active: bool,
    pub last_timestamp: i64,
    pub wakeup_interval: u64,
    pub base_url: String,
    pub symbols: Vec<String>,
}

impl BinanceSpotSource {
    /// The source is as the configuration describes it, is not connected,
    /// and has counted and stamped nothing yet.
    pub open spec fn configured_by(&self, cfg: BinanceSpotSourceConfig) -> bool {
        &&& self.name@ == cfg.name@
        &&& self.queue_size == cfg.queue_size
        &&& self.sequence_number == 0
        &&& !self.active
        &&& self.last_timestamp == 0
        &&& self.wakeup_interval == cfg.wakeup_interval
        &&& self.base_url@ == cfg.base_url@
        &&& self.symbols@.len() == cfg.symbols@.len()
        &&& forall|i: int|
            0 <= i < cfg.symbols@.len() ==> (#[trigger] self.symbols@[i])@ == cfg.symbols@[i]@
    }

    pub fn new(cfg: &BinanceSpotSourceConfig) -> (r: BinanceSpotSource)
        ensures
            r.configured_by(*cfg),
    {
        let mut symbols: Vec<String> = Vec::new();
        let mut i: usize = 0;
        while i < cfg.symbols.len()
            invariant
                i <= cfg.symbols.len(),
                symbols.len() == i,
                forall|j: int| 0 <= j < i ==> symbols@[j]@ == cfg.symbols@[j]@,
            decreases cfg.symbols.len() - i,
        {
            symbols.push(cfg.symbols[i].clone());
            i = i + 1;
        }
        BinanceSpotSource {
            name: cfg.name.clone(),
            queue_size: cfg.queue_size,
            sequence_number: 0,
            active: false,
            last_timestamp: 0,
            wakeup_interval: cfg.wakeup_interval,
            base_url: cfg.base_url.clone(),
            symbols,
        }
    }

    /// The address to connect to: the base address followed by the stream
    /// fragments of the symbols, in order.
    pub fn complete_url(&self) -> (r: String)
        ensures
            r@ == self.base_url@ + joined(self.symbols@),
    {
        let mut url = self.base_url.clone();
        let mut i: usize = 0;
        proof {
            assert(self.symbols@.take(0) =~= Seq::<String>::empty());
            assert(url@ =~= self.base_url@ + joined(self.symbols@.take(0)));
        }
        while i < self.symbols.len()
            invariant
                i <= self.symbols.len(),
                url@ == self.base_url@ + joined(self.symbols@.take(i as int)),
            decreases self.symbols.len() - i,
        {
            proof {
                assert(self.symbols@.take(i + 1).drop_last() =~= self.symbols@.take(i as int));
            }
            url.append(self.symbols[i].as_str());
            proof {
                assert(url@ =~= self.base_url@ + joined(self.symbols@.take(i + 1)));
            }
            i = i + 1;
        }
        proof {
            assert(self.symbols@.take(self.symbols.len() as int) =~= self.symbols@);
        }
        url
    }

    /// The address to connect to in its normal form, or the reason why
    /// the configured texts make no address.
    pub fn address(&self) -> (r: Result<String, AddressError>)
        ensures
            match url_normal_form(self.base_url@ + joined(self.symbols@)) {
                Some(text) => r is Ok && r->Ok_0@ == text,
                None => r is Err && r->Err_0.url@ == self.base_url@ + joined(self.symbols@),
            },
    {
        let complete_url = self.complete_url();
        match parse_url(complete_url.as_str()) {
            Ok(text) => Ok(text),
            Err(cause) => Err(AddressError { url: complete_url, cause }),
        }
    }

    /// Notes that the connection stands.
    pub fn connected(&mut self)
        ensures
            *final(self) == (BinanceSpotSource { active: true, ..*old(self) }),
    {
        self.active = true;
    }

    pub fn is_active(&self) -> (r: bool)
        ensures
            r == self.active,
    {
        self.active
    }

    /// What an inactive source hands on without a read: it completes. An
    /// active source hands on nothing before it has read.
    pub fn without_read(&self) -> (r: Option<Result<(Option<Objects>, bool), String>>)
        ensures
            r == if self.active {
                None::<Result<(Option<Objects>, bool), String>>
            } else {
                Some(Ok::<(Option<Objects>, bool), String>((None, true)))
            },
    {
        if self.active {
            None
        } else {
            Some(Ok((None, true)))
        }
    }

    /// What the source hands on after it waited for a message, and what
    /// becomes of the source.
    ///
    /// An inactive source completes, whatever the read; it is left as it
    /// was. Of an active source: a read that timed out makes the source
    /// inactive; a message that arrived is stamped with `wire_timestamp`,
    /// the time at which it was read, whatever it holds; a message that
    /// was parsed counts as one more in the sequence. Every read but a
    /// parsed message is an error, in the words of [`read_error`]; a
    /// parsed message is handed on as [`Self::on_event`] says.
    pub fn recv(&mut self, wire_timestamp: i64, id: Uuid, correlation_id: Uuid, read: Read) -> (r:
        Result<(Option<Objects>, bool), String>)
        ensures
            !old(self).active ==> *final(self) == *old(self) && r == Ok::<
                (Option<Objects>, bool),
                String,
            >((None, true)),
            old(self).active ==> *final(self) == (BinanceSpotSource {
                active: !(read is TimedOut),
                last_timestamp: if stamps(read) {
                    wire_timestamp
                } else {
                    old(self).last_timestamp
                },
                sequence_number: if read is Event {
                    counted(old(self).sequence_number)
                } else {
                    old(self).sequence_number
                },
                ..*old(self)
            }),
            old(self).active ==> match read {
                Read::Event(event) => handed_on(
                    r,
                    event,
                    old(self).name@,
                    id,
                    wire_timestamp,
                    counted(old(self).sequence_number),
                    correlation_id,
                ),
                _ => r is Err && r->Err_0@ == read_error(
                    old(self).name@,
                    old(self).wakeup_interval,
                    read,
                ),
            },
    {
        if !self.active {
            return Ok((None, true));
        }
        match read {
            Read::Uninitialized => {
                let message = self.complaint(": Socket is uninitialized", "");
                proof {
                    reveal_strlit("");
                    assert(message@ =~= self.name@ + ": Socket is uninitialized"@);
                }
                Err(message)
            },
            Read::TimedOut(cause) => {
                self.active = false;
                let mut message = self.name.clone();
                message.append(": websocket has not received any data in the last ");
                push_decimal(&mut message, self.wakeup_interval);
                message.append(" ms - ");
                message.append(cause.as_str());
                Err(message)
            },
            Read::Closed => {
                let message = self.complaint(": websocket has returned no data", "");
                proof {
                    reveal_strlit("");
                    assert(message@ =~= self.name@ + ": websocket has returned no data"@);
                }
                Err(message)
            },
            Read::Failed(cause) => Err(
                self.complaint(": websocket has returned an error - ", cause.as_str()),
            ),
            Read::NotText(cause) => {
                self.last_timestamp = wire_timestamp;
                Err(self.complaint(": cannot decode data as text - ", cause.as_str()))
            },
            Read::NotJson(cause) => {
                self.last_timestamp = wire_timestamp;
                Err(self.complaint(": cannot decode json - ", cause.as_str()))
            },
            Read::Event(event) => self.on_event(wire_timestamp, id, correlation_id, event),
        }
    }

    /// The name of the source, what went wrong, and the cause.
    fn complaint(&self, what: &str, cause: &str) -> (r: String)
        ensures
            r@ == self.name@ + what@ + cause@,
    {
        let mut message = self.name.clone();
        message.append(what);
        message.append(cause);
        message
    }

    /// What the source hands on for a message that was read and parsed.
    ///
    /// The message is stamped with the time at which it was read and
    /// counts as one more in the sequence, whatever it holds. `event` is
    /// `None` for a tag of unknown kind, which is passed over; an error
    /// where an event of known kind did not decode, which is handed on;
    /// else the event, which becomes the normalized object of its kind,
    /// with the ids that are handed in, the stamp, the sequence number,
    /// and this source, the exchange and the asset type as its origin.
    pub fn on_event(
        &mut self,
        wire_timestamp: i64,
        id: Uuid,
        correlation_id: Uuid,
        event: Option<Result<BinanceEvent, String>>,
    ) -> (r: Result<(Option<Objects>, bool), String>)
        ensures
            *final(self) == (BinanceSpotSource {
                sequence_number: counted(old(self).sequence_number),
                last_timestamp: wire_timestamp,
                ..*old(self)
            }),
            handed_on(
                r,
                event,
                old(self).name@,
                id,
                wire_timestamp,
                counted(old(self).sequence_number),
                correlation_id,
            ),
    {
        self.last_timestamp = wire_timestamp;
        self.sequence_number = count(self.sequence_number);
        let sequence = self.sequence_number;
        match event {
            None => Ok((None, false)),
            Some(Err(e)) => Err(e),
            Some(Ok(BinanceEvent::DepthUpdate(event))) => {
                let obj = OrderbookUpdateV1::from_binance(
                    id,
                    wire_timestamp,
                    sequence,
                    correlation_id,
                    self.name.as_str(),
                    "Binance",
                    "Spot",
                    event,
                );
                Ok((Some(Objects::OrderbookUpdateV1(obj)), false))
            },
            Some(Ok(BinanceEvent::Kline(event))) => {
                let obj = KlineV1::from_binance(
                    id,
                    wire_timestamp,
                    sequence,
                    correlation_id,
                    self.name.as_str(),
                    "Binance",
                    "Spot",
                    event,
                );
                Ok((Some(Objects::KlineV1(obj)), false))
            },
            Some(Ok(BinanceEvent::Trade(event))) => {
                let obj = TradeV1::from_binance(
                    id,
                    wire_timestamp,
                    sequence,
                    correlation_id,
                    self.name.as_str(),
                    "Binance",
                    "Spot",
                    event,
                );
                Ok((Some(Objects::TradeV1(obj)), false))
            },
        }
    }

    /// The address that the snapshot of a symbol is fetched from: the
    /// configured address, the symbol, and a limit of a thousand levels.
    pub fn snapshot_url(snapshot_url: &str, symbol: &str) -> (r: String)
        ensures
            r@ == snapshot_url@ + symbol@ + "&limit=1000"@,
    {
        let mut url = snapshot_url.to_owned();
        url.append(symbol);
        url.append("&limit=1000");
        url
    }

    /// The control message that delivers a fetched snapshot: the book
    /// built from it, with sequence number zero, to be injected.
    pub fn snapshot(
        &self,
        id: Uuid,
        now: i64,
        correlation_id: Uuid,
        symbol: &str,
        event: BinanceOrderBookEvent,
    ) -> (r: Controls)
        ensures
            r is Inject,
            r->Inject_0 is OrderbookV1,
            r->Inject_0->OrderbookV1_0@ == OrderbookV1::from_binance_view(
                id,
                now,
                0,
                correlation_id,
                self.name@,
                "Binance"@,
                "Spot"@,
                symbol@,
                event,
            ),
    {
        let book = OrderbookV1::from_binance(
            id,
            now,
            0,
            correlation_id,
            self.name.as_str(),
            "Binance",
            "Spot",
            symbol,
            event,
        );
        Controls::Inject(Objects::OrderbookV1(book))
    }

    pub fn get_name(&self) -> (r: &str)
        ensures
            r@ == self.name@,
    {
        self.name.as_str()
    }

    pub fn get_queue_size(&self) -> (r: usize)
        ensures
            r == self.queue_size,
    {
        self.queue_size
    }

    /// This source has no throttle.
    pub fn set_sleep_time(&mut self, _sleep_time: u64)
        ensures
            *final(self) == *old(self),
    {
    }
}

/// What came of waiting for a message.
pub enum Read {
    /// There is no connection to read from.
    Uninitialized,
    /// Nothing arrived within the wake-up interval; with the words of
    /// the timer.
    TimedOut(String),
    /// The stream has ended.
    Closed,
    /// The stream failed; with the words of the failure.
    Failed(String),
    /// A message arrived that is no text; with the reason.
    NotText(String),
    /// A text arrived that is no JSON; with the reason.
    NotJson(String),
    /// A message arrived and was parsed: `None` for a tag of unknown kind,
    /// an error where an event of known kind did not decode, else the
    /// event.
    Event(Option<Result<BinanceEvent, String>>),
}

/// Whether something arrived with the read: it is then stamped with the
/// time of the read.
pub open spec fn stamps(read: Read) -> bool {
    read is NotText || read is NotJson || read is Event
}

/// The words in which a read that gave no parsed message is reported:
/// the name of the source, what went wrong, and the cause.
pub open spec fn read_error(name: Seq<char>, wakeup_interval: u64, read: Read) -> Seq<char> {
    match read {
        Read::Uninitialized => name + ": Socket is uninitialized"@,
        Read::TimedOut(cause) => name + ": websocket has not received any data in the last "@
            + decimal(wakeup_interval as nat) + " ms - "@ + cause@,
        Read::Closed => name + ": websocket has returned no data"@,
        Read::Failed(cause) => name + ": websocket has returned an error - "@ + cause@,
        Read::NotText(cause) => name + ": cannot decode data as text - "@ + cause@,
        Read::NotJson(cause) => name + ": cannot decode json - "@ + cause@,
        Read::Event(_) => Seq::empty(),
    }
}

/// What is handed on for a parsed message: nothing for a tag of unknown
/// kind, the error where the event did not decode, else the normalized
/// object of the event with the given header; never completion.
pub open spec fn handed_on(
    r: Result<(Option<Objects>, bool), String>,
    event: Option<Result<BinanceEvent, String>>,
    source: Seq<char>,
    id: Uuid,
    wire_timestamp: i64,
    sequence_number: u64,
    correlation_id: Uuid,
) -> bool {
    match event {
        None => r == Ok::<(Option<Objects>, bool), String>((None, false)),
        Some(Err(e)) => r == Err::<(Option<Objects>, bool), String>(e),
        Some(Ok(decoded)) => {
            &&& r is Ok
            &&& !r->Ok_0.1
            &&& r->Ok_0.0 is Some
            &&& made_from(r->Ok_0.0->0, decoded, source)
            &&& r->Ok_0.0->0.spec_id() == id
            &&& r->Ok_0.0->0.spec_timestamp() == wire_timestamp
            &&& r->Ok_0.0->0.spec_sequence_number() == sequence_number
            &&& r->Ok_0.0->0.spec_correlation_id() == correlation_id
        },
    }
}

/// The object is of the kind of the event, carries what the event holds,
/// and names the source, the exchange and the asset type as its origin.
pub open spec fn made_from(obj: Objects, event: BinanceEvent, source: Seq<char>) -> bool {
    match event {
        BinanceEvent::DepthUpdate(e) => obj is OrderbookUpdateV1 && {
            let update = obj->OrderbookUpdateV1_0@;
            &&& update.header.source == source
            &&& update.header.exchange == "Binance"@
            &&& update.header.asset_type == "Spot"@
            &&& update.symbol == e.symbol@
            &&& update.event_type == e.event_type@
            &&& update.event_time == e.event_time
            &&& update.first_update_id == e.first_update_id
            &&& update.final_update_id == e.final_update_id
            &&& update.previous_final_update_id == e.previous_final_update_id
            &&& update.bids == parsed_levels(bids_text(e.bids@))
            &&& update.asks == parsed_levels(asks_text(e.asks@))
        },
        BinanceEvent::Kline(e) => obj is KlineV1 && {
            let kline = obj->KlineV1_0;
            &&& kline.source@ == source
            &&& kline.exchange@ == "Binance"@
            &&& kline.asset_type@ == "Spot"@
            &&& kline.carries(e)
        },
        BinanceEvent::Trade(e) => obj is TradeV1 && {
            let trade = obj->TradeV1_0;
            &&& trade.source@ == source
            &&& trade.exchange@ == "Binance"@
            &&& trade.asset_type@ == "Spot"@
            &&& trade.carries(e)
        },
    }
}

} // verus!
