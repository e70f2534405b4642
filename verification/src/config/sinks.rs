//! Configuration of the sinks.

use vstd::prelude::*;

verus! {

/// The configuration of a sink of any kind.
#[derive(Clone, Debug)]
pub enum SinkConfigs {
    BinanceSpotSink(BinanceSpotSinkConfig),
    FileSink(FileSinkConfig),
    MockSink(MockSinkConfig),
}

/// A sink towards the exchange, with what its client needs.
#[derive(Clone, Debug)]
pub struct BinanceSpotSinkConfig {
    pub name: String,
    pub base_url: String,
    pub api_key: String,
    pub secret_key: String,
    pub user_agent: String,
    pub content_type: String,
}

/// A sink that drops what it takes.
#[derive(Clone, Debug)]
pub struct MockSinkConfig {
    pub name: String,
}

/// A sink that writes to a file whose name begins with `filename`.
#[derive(Clone, Debug)]
pub struct FileSinkConfig {
    pub name: String,
    pub filename: String,
}

impl SinkConfigs {
    pub open spec fn spec_name(&self) -> String {
        match self {
            SinkConfigs::BinanceSpotSink(cfg) => cfg.name,
            SinkConfigs::FileSink(cfg) => cfg.name,
            SinkConfigs::MockSink(cfg) => cfg.name,
        }
    }

    /// The name of the stage.
    pub fn name(&self) -> (r: &str)
        ensures
            r@ == self.spec_name()@,
    {
        match self {
            SinkConfigs::BinanceSpotSink(cfg) => cfg.name.as_str(),
            SinkConfigs::FileSink(cfg) => cfg.name.as_str(),
            SinkConfigs::MockSink(cfg) => cfg.name.as_str(),
        }
    }
}

} // verus!
