//! The sink towards the exchange.

use crate::config::sinks::BinanceSpotSinkConfig;
use crate::objects::Objects;
use crate::utils::count::{count, counted};
use vstd::prelude::*;

verus! {

/// The sink with the count of what it took.
pub struct BinanceSpotSink {
    pub name: String,
    pub sent_objs: u64,
}

impl BinanceSpotSink {
    /// The sink is as the configuration describes it and has taken
    /// nothing yet.
    pub open spec fn configured_by(&self, cfg: BinanceSpotSinkConfig) -> bool {
        &&& self.name@ == cfg.name@
        &&& self.sent_objs == 0
    }

    pub fn new(cfg: &BinanceSpotSinkConfig) -> (r: BinanceSpotSink)
        ensures
            r.configured_by(*cfg),
    {
        BinanceSpotSink { name: cfg.name.clone(), sent_objs: 0 }
    }

    pub fn init(&mut self) -> (r: Result<(), String>)
        ensures
            r is Ok,
            *final(self) == *old(self),
    {
        Ok(())
    }

    /// Takes the object: it is counted; nothing is placed at the
    /// exchange.
    pub fn send(&mut self, _obj: Objects) -> (r: Result<(), String>)
        ensures
            r is Ok,
            final(self).sent_objs == counted(old(self).sent_objs),
            final(self).name == old(self).name,
    {
        self.sent_objs = count(self.sent_objs);
        Ok(())
    }

    pub fn get_name(&self) -> (r: &str)
        ensures
            r@ == self.name@,
    {
        self.name.as_str()
    }
}

} // verus!
