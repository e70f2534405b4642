//! Configuration of the processing units.

use vstd::prelude::*;

verus! {

/// The configuration of a processing unit of any kind.
#[derive(Clone, Debug)]
pub enum PUConfigs {
    EnginePU(EnginePUConfig),
    MockPU(MockPUConfig),
    OrderManagerPU(OrderManagerPUConfig),
    OrderbookManagerPU(OrderbookManagerPUConfig),
    StrategyPU(StrategyPUConfig),
}

/// An engine; none can be built yet.
#[derive(Clone, Debug)]
pub struct EnginePUConfig {
    pub name: String,
    pub queue_size: usize,
    pub downstreams: Vec<String>,
}

/// A unit that passes every object on.
#[derive(Clone, Debug)]
pub struct MockPUConfig {
    pub name: String,
    pub queue_size: usize,
    pub downstreams: Vec<String>,
}

/// An order manager; none can be built yet.
#[derive(Clone, Debug)]
pub struct OrderManagerPUConfig {
    pub name: String,
    pub queue_size: usize,
    pub downstreams: Vec<String>,
}

/// A unit that maintains order books; in realtime mode it asks for the
/// snapshots that it lacks.
#[derive(Clone, Debug)]
pub struct OrderbookManagerPUConfig {
    pub name: String,
    pub queue_size: usize,
    pub downstreams: Vec<String>,
    pub realtime: bool,
}

/// A unit that maintains order books and runs the named algorithm.
#[derive(Clone, Debug)]
pub struct StrategyPUConfig {
    pub name: String,
    pub queue_size: usize,
    pub downstreams: Vec<String>,
    pub realtime: bool,
    pub algorithm: String,
}

impl PUConfigs {
    pub open spec fn spec_name(&self) -> String {
        match self {
            PUConfigs::EnginePU(cfg) => cfg.name,
            PUConfigs::MockPU(cfg) => cfg.name,
            PUConfigs::OrderManagerPU(cfg) => cfg.name,
            PUConfigs::OrderbookManagerPU(cfg) => cfg.name,
            PUConfigs::StrategyPU(cfg) => cfg.name,
        }
    }

    pub open spec fn spec_queue_size(&self) -> usize {
        match self {
            PUConfigs::EnginePU(cfg) => cfg.queue_size,
            PUConfigs::MockPU(cfg) => cfg.queue_size,
            PUConfigs::OrderManagerPU(cfg) => cfg.queue_size,
            PUConfigs::OrderbookManagerPU(cfg) => cfg.queue_size,
            PUConfigs::StrategyPU(cfg) => cfg.queue_size,
        }
    }

    pub open spec fn spec_downstreams(&self) -> Vec<String> {
        match self {
            PUConfigs::EnginePU(cfg) => cfg.downstreams,
            PUConfigs::MockPU(cfg) => cfg.downstreams,
            PUConfigs::OrderManagerPU(cfg) => cfg.downstreams,
            PUConfigs::OrderbookManagerPU(cfg) => cfg.downstreams,
            PUConfigs::StrategyPU(cfg) => cfg.downstreams,
        }
    }

    /// The name of the stage.
    pub fn name(&self) -> (r: &str)
        ensures
            r@ == self.spec_name()@,
    {
        match self {
            PUConfigs::EnginePU(cfg) => cfg.name.as_str(),
            PUConfigs::MockPU(cfg) => cfg.name.as_str(),
            PUConfigs::OrderManagerPU(cfg) => cfg.name.as_str(),
            PUConfigs::OrderbookManagerPU(cfg) => cfg.name.as_str(),
            PUConfigs::StrategyPU(cfg) => cfg.name.as_str(),
        }
    }

    /// The capacity of each channel that leaves the stage.
    pub fn queue_size(&self) -> (r: usize)
        ensures
            r == self.spec_queue_size(),
    {
        match self {
            PUConfigs::EnginePU(cfg) => cfg.queue_size,
            PUConfigs::MockPU(cfg) => cfg.queue_size,
            PUConfigs::OrderManagerPU(cfg) => cfg.queue_size,
            PUConfigs::OrderbookManagerPU(cfg) => cfg.queue_size,
            PUConfigs::StrategyPU(cfg) => cfg.queue_size,
        }
    }

    /// The names of the stages that this stage sends to.
    pub fn downstreams(&self) -> (r: &Vec<String>)
        ensures
            *r == self.spec_downstreams(),
    {
        match self {
            PUConfigs::EnginePU(cfg) => &cfg.downstreams,
            PUConfigs::MockPU(cfg) => &cfg.downstreams,
            PUConfigs::OrderManagerPU(cfg) => &cfg.downstreams,
            PUConfigs::OrderbookManagerPU(cfg) => &cfg.downstreams,
            PUConfigs::StrategyPU(cfg) => &cfg.downstreams,
        }
    }
}

} // verus!
