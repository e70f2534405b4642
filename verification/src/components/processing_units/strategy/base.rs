//! The processing unit that maintains a market and runs a strategy on
//! every object.

use crate::components::processing_units::common::{update_applied, update_orderbook};
use crate::components::processing_units::orderbook_manager::{install_snapshot, snapshot_installed};
use crate::components::processing_units::queues::UpdateQueues;
use crate::components::processing_units::strategy::Algorithms;
use crate::components::processing_units::strategy::factory::{known_strategy, make};
use crate::config::pus::StrategyPUConfig;
use crate::objects::Objects;
use crate::objects::market::Market;
use crate::objects::orderbook::BookView;
use crate::objects::orderbook_update::UpdateView;
use crate::utils::count::{count, counted};
use vstd::prelude::*;

verus! {

/// A processing unit with its market, its waiting updates and the
/// strategy that it runs.
pub struct StrategyPU {
    pub name: String,
    pub queue_size: usize,
    pub processed_objs: u64,
    pub realtime: bool,
    pub market: Market,
    pub obj_queues: UpdateQueues,
    pub algorithm: Algorithms,
}

impl StrategyPU {
    /// The unit is as the configuration describes it, runs the trend
    /// follower, has counted nothing yet, and holds neither a book nor a
    /// flag nor a waiting update.
    pub open spec fn configured_by(&self, cfg: StrategyPUConfig) -> bool {
        &&& self.name@ == cfg.name@
        &&& self.queue_size == cfg.queue_size
        &&& self.processed_objs == 0
        &&& self.realtime == cfg.realtime
        &&& self.algorithm is TrendFollowing
        &&& self.market.books() == Map::<Seq<char>, BookView>::empty()
        &&& self.market.flags() == Map::<Seq<char>, bool>::empty()
        &&& self.obj_queues.queues() == Map::<Seq<char>, Seq<UpdateView>>::empty()
    }

    pub fn new(cfg: &StrategyPUConfig) -> (r: StrategyPU)
        requires
            known_strategy(cfg.algorithm@),
        ensures
            r.configured_by(*cfg),
    {
        let algorithm = make(cfg.algorithm.as_str());
        StrategyPU {
            name: cfg.name.clone(),
            queue_size: cfg.queue_size,
            processed_objs: 0,
            realtime: cfg.realtime,
            market: Market::new("Market"),
            obj_queues: UpdateQueues::new(),
            algorithm,
        }
    }

    pub fn init(&mut self) -> (r: Result<(), String>)
        ensures
            r is Ok,
            *final(self) == *old(self),
    {
        Ok(())
    }

    /// Takes one object, brings the market up to date with it as the
    /// order book manager does, runs the strategy on it, and passes it on.
    /// Beside the result stands the address of a snapshot to fetch, if the
    /// object sets off a request for one.
    pub fn execute(&mut self, obj: Objects) -> (r: (
        Result<(Option<Objects>, bool), String>,
        Option<String>,
    ))
        ensures
            r.0 is Ok,
            r.0->Ok_0.0 is Some,
            !r.0->Ok_0.1,
            final(self).processed_objs == counted(old(self).processed_objs),
            final(self).name == old(self).name,
            final(self).queue_size == old(self).queue_size,
            final(self).realtime == old(self).realtime,
            match obj {
                Objects::OrderbookUpdateV1(update) => {
                    &&& r.0->Ok_0.0 == Some(obj)
                    &&& update_applied(
                        old(self).market,
                        old(self).obj_queues,
                        update,
                        old(self).realtime,
                        final(self).market,
                        final(self).obj_queues,
                        r.1,
                    )
                },
                Objects::OrderbookV1(snapshot) => {
                    &&& r.0->Ok_0.0->0 is OrderbookV1
                    &&& snapshot_installed(
                        old(self).market,
                        old(self).obj_queues,
                        snapshot,
                        final(self).market,
                        final(self).obj_queues,
                        r.0->Ok_0.0->0->OrderbookV1_0,
                    )
                    &&& r.1 is None
                },
                _ => {
                    &&& r.0->Ok_0.0 == Some(obj)
                    &&& final(self).market == old(self).market
                    &&& final(self).obj_queues == old(self).obj_queues
                    &&& r.1 is None
                },
            },
    {
        let mut request: Option<String> = None;
        let out = match obj {
            Objects::OrderbookUpdateV1(update) => {
                request =
                update_orderbook(&mut self.market, &update, self.realtime, &mut self.obj_queues);
                Objects::OrderbookUpdateV1(update)
            },
            Objects::OrderbookV1(snapshot) => {
                let installed = install_snapshot(&mut self.market, &mut self.obj_queues, snapshot);
                Objects::OrderbookV1(installed)
            },
            other => other,
        };
        let _ = self.algorithm.process(&out, &self.market);
        self.processed_objs = count(self.processed_objs);
        (Ok((Some(out), false)), request)
    }

    pub fn get_name(&self) -> (r: &str)
        ensures
            r@ == self.name@,
    {
        self.name.as_str()
    }

    pub fn get_queue_size(&self) -> (r: usize)
        ensures
            r == self.queue_size,
    {
        self.queue_size
    }
}

} // verus!
