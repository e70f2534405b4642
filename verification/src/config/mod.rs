//! The configuration of a pipeline: its stages by kind, each with the
//! names of the stages that it sends to.

pub mod pus;
pub mod sinks;
pub mod sources;

use crate::utils::text::{decimal, push_decimal};
use vstd::prelude::*;
use vstd::string::StringExecFns;

verus! {

/// The configuration of a pipeline.
#[derive(Clone, Debug)]
pub struct Config {
    pub name: String,
    pub version: u64,
    pub log_level: String,
    pub workers: usize,
    pub stack_size: usize,
    pub ctrl_host: String,
    pub ctrl_port: u16,
    pub discovery_service: Option<String>,
    pub gateway: Option<String>,
    pub sources: Vec<sources::SourceConfigs>,
    pub pus: Option<Vec<pus::PUConfigs>>,
    pub sinks: Vec<sinks::SinkConfigs>,
}

impl Config {
    /// The address under which the control plane of the pipeline is
    /// reached: what a gateway is told when the pipeline registers.
    pub fn control_url(&self) -> (r: String)
        ensures
            r@ == "http://"@ + self.ctrl_host@ + ":"@ + decimal(self.ctrl_port as nat),
    {
        let mut url = "http://".to_owned();
        url.append(self.ctrl_host.as_str());
        url.append(":");
        push_decimal(&mut url, self.ctrl_port as u64);
        url
    }
}

} // verus!
