//! A synthetic object that carries a header and nothing else.

use uuid::Uuid;
use vstd::prelude::*;

verus! {

/// A normalized object with a header only.
#[derive(Debug)]
pub struct MockV1 {
    pub id: Uuid,
    pub timestamp: i64,
    pub sequence_number: u64,
    pub correlation_id: Uuid,
}

impl MockV1 {
    pub fn new(id: Uuid, timestamp: i64, sequence_number: u64, correlation_id: Uuid) -> (r: MockV1)
        ensures
            r.id == id,
            r.timestamp == timestamp,
            r.sequence_number == sequence_number,
            r.correlation_id == correlation_id,
    {
        MockV1 { id, timestamp, sequence_number, correlation_id }
    }

    pub fn get_type(&self) -> (r: u64)
        ensures
            r == 1,
    {
        1
    }

    pub fn get_version(&self) -> (r: u64)
        ensures
            r == 1,
    {
        1
    }

    pub fn get_id(&self) -> (r: Uuid)
        ensures
            r == self.id,
    {
        self.id
    }

    pub fn get_timestamp(&self) -> (r: i64)
        ensures
            r == self.timestamp,
    {
        self.timestamp
    }

    pub fn get_sequence_number(&self) -> (r: u64)
        ensures
            r == self.sequence_number,
    {
        self.sequence_number
    }

    pub fn get_correlation_id(&self) -> (r: Uuid)
        ensures
            r == self.correlation_id,
    {
        self.correlation_id
    }
}

impl Clone for MockV1 {
    fn clone(&self) -> (r: MockV1)
        ensures
            r == *self,
    {
        MockV1 {
            id: self.id,
            timestamp: self.timestamp,
            sequence_number: self.sequence_number,
            correlation_id: self.correlation_id,
        }
    }
}

} // verus!
