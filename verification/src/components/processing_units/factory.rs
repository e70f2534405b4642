//! Builds a processing unit from its configuration.

use crate::components::processing_units::PUs;
use crate::components::processing_units::mock::MockPU;
use crate::components::processing_units::orderbook_manager::OrderbookManagerPU;
use crate::components::processing_units::strategy::base::StrategyPU;
use crate::components::processing_units::strategy::factory::{is_known, known_strategy};
use crate::config::pus::PUConfigs;
use vstd::prelude::*;

verus! {

/// Whether a processing unit can be built from the configuration: of the
/// kinds that are configurable, the mock, the order book manager, and a
/// strategy with a known algorithm can.
pub open spec fn buildable(cfg: PUConfigs) -> bool {
    match cfg {
        PUConfigs::MockPU(_) => true,
        PUConfigs::OrderbookManagerPU(_) => true,
        PUConfigs::StrategyPU(cfg) => known_strategy(cfg.algorithm@),
        _ => false,
    }
}

/// Whether a processing unit can be built from the configuration.
pub fn can_make(cfg: &PUConfigs) -> (r: bool)
    ensures
        r == buildable(*cfg),
{
    match cfg {
        PUConfigs::MockPU(_) => true,
        PUConfigs::OrderbookManagerPU(_) => true,
        PUConfigs::StrategyPU(cfg) => is_known(cfg.algorithm.as_str()),
        _ => false,
    }
}

/// The processing unit that the configuration describes: of the kind that
/// it names, with every field that it gives.
pub fn make(cfg: &PUConfigs) -> (r: PUs)
    requires
        buildable(*cfg),
    ensures
        r.configured_by(*cfg),
        r.spec_name()@ == cfg.spec_name()@,
{
    match cfg {
        PUConfigs::MockPU(cfg) => PUs::MockPU(MockPU::new(cfg)),
        PUConfigs::OrderbookManagerPU(cfg) => PUs::OrderbookManagerPU(OrderbookManagerPU::new(cfg)),
        PUConfigs::StrategyPU(cfg) => PUs::StrategyPU(StrategyPU::new(cfg)),
        _ => vstd::pervasive::unreached(),
    }
}

} // verus!
