//! The processing unit that maintains the order books of a market from
//! the snapshots and updates that pass through it.

use crate::components::processing_units::common::{update_applied, update_orderbook};
use crate::components::processing_units::queues::{drained, waiting, UpdateQueues};
use crate::config::pus::OrderbookManagerPUConfig;
use crate::objects::Objects;
use crate::objects::market::Market;
use crate::objects::orderbook::{law_updates_keep_identity, updated_all, BookView, OrderbookV1};
use crate::objects::orderbook_update::UpdateView;
use crate::utils::count::{count, counted};
use vstd::prelude::*;

verus! {

/// A processing unit with the market that it maintains and the updates
/// that wait for their snapshot.
pub struct OrderbookManagerPU {
    pub name: String,
    pub queue_size: usize,
    pub processed_objs: u64,
    pub realtime: bool,
    pub market: Market,
    pub obj_queues: UpdateQueues,
}

/// The market and the queues after a snapshot arrived: the updates that
/// waited for its symbol are replayed against it in order, the queue is
/// emptied, the symbol is no longer pending, and the book that results is
/// installed.
pub open spec fn snapshot_installed(
    before_market: Market,
    before_queues: UpdateQueues,
    snapshot: OrderbookV1,
    after_market: Market,
    after_queues: UpdateQueues,
    installed: OrderbookV1,
) -> bool {
    &&& installed@ == updated_all(snapshot@, waiting(before_queues.queues(), snapshot.symbol@))
    &&& after_queues.queues() == drained(before_queues.queues(), snapshot.symbol@)
    &&& after_market.flags() == before_market.flags().insert(snapshot.symbol@, false)
    &&& after_market.books() == before_market.books().insert(snapshot.symbol@, installed@)
}

/// Replays the waiting updates against the snapshot and installs it.
pub fn install_snapshot(
    market: &mut Market,
    obj_queues: &mut UpdateQueues,
    snapshot: OrderbookV1,
) -> (installed: OrderbookV1)
    ensures
        snapshot_installed(
            *old(market),
            *old(obj_queues),
            snapshot,
            *final(market),
            *final(obj_queues),
            installed,
        ),
{
    let mut book = snapshot;
    let key = book.symbol.clone();
    obj_queues.replay_into(key.as_str(), &mut book);
    proof {
        law_updates_keep_identity(snapshot@, waiting(old(obj_queues).queues(), snapshot.symbol@));
    }
    market.clear_pending(key.as_str());
    market.set_book(book.clone());
    book
}

impl OrderbookManagerPU {
    /// The unit is as the configuration describes it, has counted nothing
    /// yet, and holds neither a book nor a flag nor a waiting update.
    pub open spec fn configured_by(&self, cfg: OrderbookManagerPUConfig) -> bool {
        &&& self.name@ == cfg.name@
        &&& self.queue_size == cfg.queue_size
        &&& self.processed_objs == 0
        &&& self.realtime == cfg.realtime
        &&& self.market.books() == Map::<Seq<char>, BookView>::empty()
        &&& self.market.flags() == Map::<Seq<char>, bool>::empty()
        &&& self.obj_queues.queues() == Map::<Seq<char>, Seq<UpdateView>>::empty()
    }

    pub fn new(cfg: &OrderbookManagerPUConfig) -> (r: OrderbookManagerPU)
        ensures
            r.configured_by(*cfg),
    {
        OrderbookManagerPU {
            name: cfg.name.clone(),
            queue_size: cfg.queue_size,
            processed_objs: 0,
            realtime: cfg.realtime,
            market: Market::new("Market"),
            obj_queues: UpdateQueues::new(),
        }
    }

    pub fn init(&mut self) -> (r: Result<(), String>)
        ensures
            r is Ok,
            *final(self) == *old(self),
    {
        Ok(())
    }

    /// Takes one object, brings the market up to date with it, and passes
    /// it on. Beside the result stands the address of a snapshot to fetch,
    /// if the object sets off a request for one.
    ///
    /// An update goes through [`update_orderbook`]. A snapshot is replayed
    /// and installed as [`snapshot_installed`] says, and is passed on as
    /// installed. Any other object leaves the market alone.
    pub fn execute(&mut self, obj: Objects) -> (r: (
        Result<(Option<Objects>, bool), String>,
        Option<String>,
    ))
        ensures
            r.0 is Ok,
            r.0->Ok_0.0 is Some,
            !r.0->Ok_0.1,
            final(self).processed_objs == counted(old(self).processed_objs),
            final(self).name == old(self).name,
            final(self).queue_size == old(self).queue_size,
            final(self).realtime == old(self).realtime,
            match obj {
                Objects::OrderbookUpdateV1(update) => {
                    &&& r.0->Ok_0.0 == Some(obj)
                    &&& update_applied(
                        old(self).market,
                        old(self).obj_queues,
                        update,
                        old(self).realtime,
                        final(self).market,
                        final(self).obj_queues,
                        r.1,
                    )
                },
                Objects::OrderbookV1(snapshot) => {
                    &&& r.0->Ok_0.0->0 is OrderbookV1
                    &&& snapshot_installed(
                        old(self).market,
                        old(self).obj_queues,
                        snapshot,
                        final(self).market,
                        final(self).obj_queues,
                        r.0->Ok_0.0->0->OrderbookV1_0,
                    )
                    &&& r.1 is None
                },
                _ => {
                    &&& r.0->Ok_0.0 == Some(obj)
                    &&& final(self).market == old(self).market
                    &&& final(self).obj_queues == old(self).obj_queues
                    &&& r.1 is None
                },
            },
    {
        let mut request: Option<String> = None;
        let out = match obj {
            Objects::OrderbookUpdateV1(update) => {
                request =
                update_orderbook(&mut self.market, &update, self.realtime, &mut self.obj_queues);
                Objects::OrderbookUpdateV1(update)
            },
            Objects::OrderbookV1(snapshot) => {
                let installed = install_snapshot(&mut self.market, &mut self.obj_queues, snapshot);
                Objects::OrderbookV1(installed)
            },
            other => other,
        };
        self.processed_objs = count(self.processed_objs);
        (Ok((Some(out), false)), request)
    }

    pub fn get_name(&self) -> (r: &str)
        ensures
            r@ == self.name@,
    {
        self.name.as_str()
    }

    pub fn get_queue_size(&self) -> (r: usize)
        ensures
            r == self.queue_size,
    {
        self.queue_size
    }
}

} // verus!
