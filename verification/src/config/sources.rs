//! Configuration of the sources.

use vstd::prelude::*;

verus! {

/// The configuration of a source of any kind.
#[derive(Clone, Debug)]
pub enum SourceConfigs {
    BinanceSpotSource(BinanceSpotSourceConfig),
    FileSource(FileSourceConfig),
    MockSource(MockSourceConfig),
}

/// A source that listens to the exchange: the stream address, the stream
/// fragments of the symbols, the address of snapshots, and how long, in
/// milliseconds, it waits for a message.
#[derive(Clone, Debug)]
pub struct BinanceSpotSourceConfig {
    pub name: String,
    pub queue_size: usize,
    pub downstreams: Vec<String>,
    pub base_url: String,
    pub snapshot_url: String,
    pub symbols: Vec<String>,
    pub wakeup_interval: u64,
}

/// A source that replays the objects of a file.
#[derive(Clone, Debug)]
pub struct FileSourceConfig {
    pub name: String,
    pub queue_size: usize,
    pub downstreams: Vec<String>,
    pub filename: String,
}

/// A source that makes objects up, one every `sleep_time` milliseconds.
#[derive(Clone, Debug)]
pub struct MockSourceConfig {
    pub name: String,
    pub queue_size: usize,
    pub downstreams: Vec<String>,
    pub sleep_time: u64,
}

impl SourceConfigs {
    pub open spec fn spec_name(&self) -> String {
        match self {
            SourceConfigs::BinanceSpotSource(cfg) => cfg.name,
            SourceConfigs::FileSource(cfg) => cfg.name,
            SourceConfigs::MockSource(cfg) => cfg.name,
        }
    }

    pub open spec fn spec_queue_size(&self) -> usize {
        match self {
            SourceConfigs::BinanceSpotSource(cfg) => cfg.queue_size,
            SourceConfigs::FileSource(cfg) => cfg.queue_size,
            SourceConfigs::MockSource(cfg) => cfg.queue_size,
        }
    }

    pub open spec fn spec_downstreams(&self) -> Vec<String> {
        match self {
            SourceConfigs::BinanceSpotSource(cfg) => cfg.downstreams,
            SourceConfigs::FileSource(cfg) => cfg.downstreams,
            SourceConfigs::MockSource(cfg) => cfg.downstreams,
        }
    }

    /// The name of the stage.
    pub fn name(&self) -> (r: &str)
        ensures
            r@ == self.spec_name()@,
    {
        match self {
            SourceConfigs::BinanceSpotSource(cfg) => cfg.name.as_str(),
            SourceConfigs::FileSource(cfg) => cfg.name.as_str(),
            SourceConfigs::MockSource(cfg) => cfg.name.as_str(),
        }
    }

    /// The capacity of each channel that leaves the stage.
    pub fn queue_size(&self) -> (r: usize)
        ensures
            r == self.spec_queue_size(),
    {
        match self {
            SourceConfigs::BinanceSpotSource(cfg) => cfg.queue_size,
            SourceConfigs::FileSource(cfg) => cfg.queue_size,
            SourceConfigs::MockSource(cfg) => cfg.queue_size,
        }
    }

    /// The names of the stages that this stage sends to.
    pub fn downstreams(&self) -> (r: &Vec<String>)
        ensures
            *r == self.spec_downstreams(),
    {
        match self {
            SourceConfigs::BinanceSpotSource(cfg) => &cfg.downstreams,
            SourceConfigs::FileSource(cfg) => &cfg.downstreams,
            SourceConfigs::MockSource(cfg) => &cfg.downstreams,
        }
    }
}

} // verus!
