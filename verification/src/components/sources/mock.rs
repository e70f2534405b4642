//! A source that makes up an object on every turn.

use crate::config::sources::MockSourceConfig;
use crate::objects::Objects;
use crate::objects::mock::MockV1;
use crate::utils::count::{count, counted};
use uuid::Uuid;
use vstd::prelude::*;

verus! {

/// The source with its throttle and the count of what it made.
pub struct MockSource {
    pub name: String,
    pub queue_size: usize,
    pub sequence_number: u64,
    pub sleep_time: u64,
}

impl MockSource {
    /// The source is as the configuration describes it and has made
    /// nothing yet.
    pub open spec fn configured_by(&self, cfg: MockSourceConfig) -> bool {
        &&& self.name@ == cfg.name@
        &&& self.queue_size == cfg.queue_size
        &&& self.sequence_number == 0
        &&& self.sleep_time == cfg.sleep_time
    }

    pub fn new(cfg: &MockSourceConfig) -> (r: MockSource)
        ensures
            r.configured_by(*cfg),
    {
        MockSource {
            name: cfg.name.clone(),
            queue_size: cfg.queue_size,
            sequence_number: 0,
            sleep_time: cfg.sleep_time,
        }
    }

    pub fn init(&mut self) -> (r: Result<(), String>)
        ensures
            r is Ok,
            *final(self) == *old(self),
    {
        Ok(())
    }

    /// Produces the next object: a mock with the ids and the time that
    /// are handed in, and the next sequence number. The source never
    /// completes.
    pub fn recv(&mut self, id: Uuid, now: i64, correlation_id: Uuid) -> (r: Result<
        (Option<Objects>, bool),
        String,
    >)
        ensures
            final(self).sequence_number == counted(old(self).sequence_number),
            final(self).name == old(self).name,
            final(self).queue_size == old(self).queue_size,
            final(self).sleep_time == old(self).sleep_time,
            r is Ok,
            !r->Ok_0.1,
            r->Ok_0.0 == Some(
                Objects::MockV1(
                    MockV1 {
                        id,
                        timestamp: now,
                        sequence_number: final(self).sequence_number,
                        correlation_id,
                    },
                ),
            ),
    {
        self.sequence_number = count(self.sequence_number);
        let obj = Objects::MockV1(MockV1::new(id, now, self.sequence_number, correlation_id));
        Ok((Some(obj), false))
    }

    /// The object that a request to inject puts on the control path: a
    /// mock with sequence number zero.
    pub fn injected(id: Uuid, now: i64, correlation_id: Uuid) -> (r: Objects)
        ensures
            r == Objects::MockV1(
                MockV1 { id, timestamp: now, sequence_number: 0, correlation_id },
            ),
    {
        Objects::MockV1(MockV1::new(id, now, 0, correlation_id))
    }

    pub fn get_name(&self) -> (r: &str)
        ensures
            r@ == self.name@,
    {
        self.name.as_str()
    }

    pub fn get_queue_size(&self) -> (r: usize)
        ensures
            r == self.queue_size,
    {
        self.queue_size
    }

    /// Sets the time, in milliseconds, that the source waits before each
    /// object; zero means no wait.
    pub fn set_sleep_time(&mut self, sleep_time: u64)
        ensures
            final(self).sleep_time == sleep_time,
            final(self).name == old(self).name,
            final(self).queue_size == old(self).queue_size,
            final(self).sequence_number == old(self).sequence_number,
    {
        self.sleep_time = sleep_time;
    }
}

} // verus!
