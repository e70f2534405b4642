//! A sink that counts what arrives and measures how late it is.

use crate::config::sinks::MockSinkConfig;
use crate::objects::Objects;
use crate::utils::count::{count, counted};
use crate::utils::time::lag_nanos;
use vstd::prelude::*;

verus! {

/// The sink with the count of what it took.
pub struct MockSink {
    pub name: String,
    pub sent_objs: u64,
}

impl MockSink {
    /// The sink is as the configuration describes it and has taken
    /// nothing yet.
    pub open spec fn configured_by(&self, cfg: MockSinkConfig) -> bool {
        &&& self.name@ == cfg.name@
        &&& self.sent_objs == 0
    }

    pub fn new(cfg: &MockSinkConfig) -> (r: MockSink)
        ensures
            r.configured_by(*cfg),
    {
        MockSink { name: cfg.name.clone(), sent_objs: 0 }
    }

    pub fn init(&mut self) -> (r: Result<(), String>)
        ensures
            r is Ok,
            *final(self) == *old(self),
    {
        Ok(())
    }

    /// The time between the stamp of the object and `now`, in
    /// nanoseconds.
    pub fn lag(&self, obj: &Objects, now: i64) -> (r: i128)
        ensures
            r == now - obj.spec_timestamp(),
    {
        lag_nanos(now, obj.get_timestamp())
    }

    /// Takes the object: it is counted and dropped.
    pub fn send(&mut self, obj: Objects) -> (r: Result<(), String>)
        ensures
            r is Ok,
            final(self).sent_objs == counted(old(self).sent_objs),
            final(self).name == old(self).name,
    {
        self.sent_objs = count(self.sent_objs);
        Ok(())
    }

    pub fn get_name(&self) -> (r: &str)
        ensures
            r@ == self.name@,
    {
        self.name.as_str()
    }
}

} // verus!
