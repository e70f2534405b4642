//! Processing units: the stages that take an object and pass one on.

pub mod common;
pub mod factory;
pub mod mock;
pub mod orderbook_manager;
pub mod queues;
pub mod strategy;

use crate::config::pus::PUConfigs;
use vstd::prelude::*;

verus! {

/// A processing unit of any kind.
pub enum PUs {
    MockPU(mock::MockPU),
    OrderbookManagerPU(orderbook_manager::OrderbookManagerPU),
    StrategyPU(strategy::base::StrategyPU),
}

impl PUs {
    /// The unit is of the kind that the configuration names and is as the
    /// configuration describes it.
    pub open spec fn configured_by(&self, cfg: PUConfigs) -> bool {
        match (*self, cfg) {
            (PUs::MockPU(unit), PUConfigs::MockPU(cfg)) => unit.configured_by(cfg),
            (PUs::OrderbookManagerPU(unit), PUConfigs::OrderbookManagerPU(cfg)) => {
                unit.configured_by(cfg)
            },
            (PUs::StrategyPU(unit), PUConfigs::StrategyPU(cfg)) => unit.configured_by(cfg),
            _ => false,
        }
    }

    pub open spec fn spec_name(&self) -> String {
        match self {
            PUs::MockPU(unit) => unit.name,
            PUs::OrderbookManagerPU(unit) => unit.name,
            PUs::StrategyPU(unit) => unit.name,
        }
    }

    pub fn get_name(&self) -> (r: &str)
        ensures
            r@ == self.spec_name()@,
    {
        match self {
            PUs::MockPU(unit) => unit.get_name(),
            PUs::OrderbookManagerPU(unit) => unit.get_name(),
            PUs::StrategyPU(unit) => unit.get_name(),
        }
    }
}

} // verus!
