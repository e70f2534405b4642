//! A processing unit that passes every object on and counts them.

use crate::config::pus::MockPUConfig;
use crate::objects::Objects;
use crate::utils::count::{count, counted};
use vstd::prelude::*;

verus! {

/// A processing unit that counts what passes through.
pub struct MockPU {
    pub name: String,
    pub queue_size: usize,
    pub processed_objs: u64,
}

impl MockPU {
    /// The unit is as the configuration describes it and has counted
    /// nothing yet.
    pub open spec fn configured_by(&self, cfg: MockPUConfig) -> bool {
        &&& self.name@ == cfg.name@
        &&& self.queue_size == cfg.queue_size
        &&& self.processed_objs == 0
    }

    pub fn new(cfg: &MockPUConfig) -> (r: MockPU)
        ensures
            r.configured_by(*cfg),
    {
        MockPU { name: cfg.name.clone(), queue_size: cfg.queue_size, processed_objs: 0 }
    }

    pub fn init(&mut self) -> (r: Result<(), String>)
        ensures
            r is Ok,
            *final(self) == *old(self),
    {
        Ok(())
    }

    /// Counts the object and passes it on unchanged; the stage never
    /// completes by itself.
    pub fn execute(&mut self, obj: Objects) -> (r: Result<(Option<Objects>, bool), String>)
        ensures
            r is Ok,
            r->Ok_0.0 == Some(obj),
            !r->Ok_0.1,
            final(self).processed_objs == counted(old(self).processed_objs),
            final(self).name == old(self).name,
            final(self).queue_size == old(self).queue_size,
    {
        self.processed_objs = count(self.processed_objs);
        Ok((Some(obj), false))
    }

    pub fn get_name(&self) -> (r: &str)
        ensures
            r@ == self.name@,
    {
        self.name.as_str()
    }

    pub fn get_queue_size(&self) -> (r: usize)
        ensures
            r == self.queue_size,
    {
        self.queue_size
    }
}

} // verus!
