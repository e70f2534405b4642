//! Sources: the stages that produce objects.

pub mod binance;
pub mod factory;
pub mod file;
pub mod mock;

use crate::config::sources::SourceConfigs;
use vstd::prelude::*;

verus! {

/// A source of any kind.
pub enum Sources {
    BinanceSpotSource(binance::spot::BinanceSpotSource),
    FileSource(file::FileSource),
    MockSource(mock::MockSource),
}

impl Sources {
    /// The source is of the kind that the configuration names and is as
    /// the configuration describes it.
    pub open spec fn configured_by(&self, cfg: SourceConfigs) -> bool {
        match (*self, cfg) {
            (Sources::BinanceSpotSource(source), SourceConfigs::BinanceSpotSource(cfg)) => {
                source.configured_by(cfg)
            },
            (Sources::FileSource(source), SourceConfigs::FileSource(cfg)) => {
                source.configured_by(cfg)
            },
            (Sources::MockSource(source), SourceConfigs::MockSource(cfg)) => {
                source.configured_by(cfg)
            },
            _ => false,
        }
    }

    pub open spec fn spec_name(&self) -> String {
        match self {
            Sources::BinanceSpotSource(source) => source.name,
            Sources::FileSource(source) => source.name,
            Sources::MockSource(source) => source.name,
        }
    }

    pub fn get_name(&self) -> (r: &str)
        ensures
            r@ == self.spec_name()@,
    {
        match self {
            Sources::BinanceSpotSource(source) => source.get_name(),
            Sources::FileSource(source) => source.get_name(),
            Sources::MockSource(source) => source.get_name(),
        }
    }

    /// Sets the throttle; only the mock source has one.
    pub fn set_sleep_time(&mut self, sleep_time: u64)
        ensures
            final(self).spec_name() == old(self).spec_name(),
            *old(self) is MockSource ==> *final(self) is MockSource
                && (*final(self))->MockSource_0.sleep_time == sleep_time,
            !(*old(self) is MockSource) ==> *final(self) == *old(self),
    {
        match self {
            Sources::BinanceSpotSource(source) => source.set_sleep_time(sleep_time),
            Sources::FileSource(source) => source.set_sleep_time(sleep_time),
            Sources::MockSource(source) => source.set_sleep_time(sleep_time),
        }
    }
}

} // verus!
