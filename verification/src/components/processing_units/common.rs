//! What the stages that maintain order books share: how one update moves
//! a market forward.

use crate::components::processing_units::queues::{queued, UpdateQueues};
use crate::objects::market::Market;
use crate::objects::orderbook::{updated, OrderbookStatus};
use crate::objects::orderbook_update::OrderbookUpdateV1;
use vstd::prelude::*;
use vstd::string::StringExecFns;

verus! {

/// Where the snapshot of `symbol` is asked for: the route of the source
/// that produced the update, on the local control plane.
pub open spec fn snapshot_request_url(source: Seq<char>, symbol: Seq<char>) -> Seq<char> {
    "http://127.0.0.1:8000/"@ + source + "/orderbook/"@ + symbol
}

/// Whether an update for a symbol without a book sets off a request for
/// its snapshot: only in realtime mode, and only while none is pending.
pub open spec fn asks_for_snapshot(market: Market, symbol: Seq<char>, realtime: bool) -> bool {
    realtime && !(market.flags().contains_key(symbol) && market.flags()[symbol])
}

fn request_url(source: &str, symbol: &str) -> (r: String)
    ensures
        r@ == snapshot_request_url(source@, symbol@),
{
    let mut url = "http://127.0.0.1:8000/".to_owned();
    url.append(source);
    url.append("/orderbook/");
    url.append(symbol);
    url
}

/// The market and the queues after an update, and the request that it sets
/// off.
///
/// Where the market holds the book of the update's symbol, the book is
/// updated, and dropped from the market if that leaves it stale; nothing
/// is asked for. Where it holds none, the update is queued for replay; in
/// realtime mode, unless a snapshot of the symbol is pending already, the
/// symbol is flagged as pending and the address to fetch the snapshot from
/// is asked for.
pub open spec fn update_applied(
    before_market: Market,
    before_queues: UpdateQueues,
    update: OrderbookUpdateV1,
    realtime: bool,
    after_market: Market,
    after_queues: UpdateQueues,
    request: Option<String>,
) -> bool {
    if before_market.books().contains_key(update.symbol@) {
        let after = updated(before_market.books()[update.symbol@], update@);
        &&& after_market.books() == if after.status == OrderbookStatus::Stale {
            before_market.books().remove(update.symbol@)
        } else {
            before_market.books().insert(update.symbol@, after)
        }
        &&& after_market.flags() == before_market.flags()
        &&& after_queues.queues() == before_queues.queues()
        &&& request is None
    } else {
        let asks = asks_for_snapshot(before_market, update.symbol@, realtime);
        &&& after_market.books() == before_market.books()
        &&& after_market.flags() == if asks {
            before_market.flags().insert(update.symbol@, true)
        } else {
            before_market.flags()
        }
        &&& after_queues.queues() == queued(before_queues.queues(), update.symbol@, update@)
        &&& asks ==> request is Some && request->0@ == snapshot_request_url(
            update.source@,
            update.symbol@,
        )
        &&& !asks ==> request is None
    }
}

/// Moves the market forward by one update and says what is to be fetched;
/// see [`update_applied`].
pub fn update_orderbook(
    market: &mut Market,
    obj: &OrderbookUpdateV1,
    realtime: bool,
    obj_queues: &mut UpdateQueues,
) -> (request: Option<String>)
    ensures
        update_applied(
            *old(market),
            *old(obj_queues),
            *obj,
            realtime,
            *final(market),
            *final(obj_queues),
            request,
        ),
{
    let symbol = obj.symbol.as_str();
    let held = match market.get_mut_book(symbol) {
        Some(book) => {
            book.update(obj);
            Some(book.status == OrderbookStatus::Stale)
        },
        None => None,
    };
    match held {
        Some(stale) => {
            if stale {
                proof {
                    let after = updated(old(market).books()[obj.symbol@], obj@);
                    assert(old(market).books().insert(obj.symbol@, after).remove(obj.symbol@)
                        =~= old(market).books().remove(obj.symbol@));
                }
                market.clear_book(symbol);
            }
            None
        },
        None => {
            let mut request: Option<String> = None;
            if realtime && !market.is_pending(symbol) {
                request = Some(request_url(obj.source.as_str(), symbol));
                market.set_pending(symbol);
            }
            obj_queues.push(symbol, obj.clone());
            request
        },
    }
}

} // verus!
