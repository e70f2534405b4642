//! Builds a source from its configuration.

use crate::components::sources::Sources;
use crate::components::sources::binance::spot::BinanceSpotSource;
use crate::components::sources::file::FileSource;
use crate::components::sources::mock::MockSource;
use crate::config::sources::SourceConfigs;
use vstd::prelude::*;

verus! {

/// The source that the configuration describes: of the kind that it
/// names, with every field that it gives.
pub fn make(cfg: &SourceConfigs) -> (r: Sources)
    ensures
        r.configured_by(*cfg),
        r.spec_name()@ == cfg.spec_name()@,
{
    match cfg {
        SourceConfigs::BinanceSpotSource(cfg) => Sources::BinanceSpotSource(
            BinanceSpotSource::new(cfg),
        ),
        SourceConfigs::FileSource(cfg) => Sources::FileSource(FileSource::new(cfg)),
        SourceConfigs::MockSource(cfg) => Sources::MockSource(MockSource::new(cfg)),
    }
}

} // verus!
