//! Builds a sink from its configuration.

use crate::components::sinks::Sinks;
use crate::components::sinks::binance::spot::BinanceSpotSink;
use crate::components::sinks::file::FileSink;
use crate::components::sinks::mock::MockSink;
use crate::config::sinks::SinkConfigs;
use vstd::prelude::*;

verus! {

/// The sink that the configuration describes: of the kind that it names,
/// with every field that it gives. `started` is the text of the present
/// moment; a file sink carries it in the name of its file.
pub fn make(cfg: &SinkConfigs, started: &str) -> (r: Sinks)
    ensures
        r.configured_by(*cfg, started@),
        r.spec_name()@ == cfg.spec_name()@,
{
    match cfg {
        SinkConfigs::BinanceSpotSink(cfg) => Sinks::BinanceSpotSink(BinanceSpotSink::new(cfg)),
        SinkConfigs::FileSink(cfg) => Sinks::FileSink(FileSink::new(cfg, started)),
        SinkConfigs::MockSink(cfg) => Sinks::MockSink(MockSink::new(cfg)),
    }
}

} // verus!
