//! Sinks: the stages that end the chain.

pub mod binance;
pub mod factory;
pub mod file;
pub mod mock;

use crate::config::sinks::SinkConfigs;
use vstd::prelude::*;

verus! {

/// A sink of any kind.
pub enum Sinks {
    BinanceSpotSink(binance::spot::BinanceSpotSink),
    FileSink(file::FileSink),
    MockSink(mock::MockSink),
}

impl Sinks {
    /// The sink is of the kind that the configuration names and is as the
    /// configuration describes it; a file sink carries `started` in the
    /// name of its file.
    pub open spec fn configured_by(&self, cfg: SinkConfigs, started: Seq<char>) -> bool {
        match (*self, cfg) {
            (Sinks::BinanceSpotSink(sink), SinkConfigs::BinanceSpotSink(cfg)) => {
                sink.configured_by(cfg)
            },
            (Sinks::FileSink(sink), SinkConfigs::FileSink(cfg)) => sink.configured_by(cfg, started),
            (Sinks::MockSink(sink), SinkConfigs::MockSink(cfg)) => sink.configured_by(cfg),
            _ => false,
        }
    }

    pub open spec fn spec_name(&self) -> String {
        match self {
            Sinks::BinanceSpotSink(sink) => sink.name,
            Sinks::FileSink(sink) => sink.name,
            Sinks::MockSink(sink) => sink.name,
        }
    }

    pub fn get_name(&self) -> (r: &str)
        ensures
            r@ == self.spec_name()@,
    {
        match self {
            Sinks::BinanceSpotSink(sink) => sink.get_name(),
            Sinks::FileSink(sink) => sink.get_name(),
            Sinks::MockSink(sink) => sink.get_name(),
        }
    }
}

} // verus!
