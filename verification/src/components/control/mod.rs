//! The messages of the control path, and what the control plane decides
//! without touching the network.

use crate::objects::Objects;
use crate::utils::text::same_text;
use vstd::prelude::*;

verus! {

/// A message on the control channel of a stage.
pub enum Controls {
    /// Send the object down the stage's outbound path as if the stage had
    /// produced it.
    Inject(Objects),
    /// Change the throttle of a source, in milliseconds.
    SleepTime(u64),
}

impl Controls {
    /// The other message is of the same kind and holds the same: the same
    /// sleep time, or an object that is the same as [`Objects::same_as`]
    /// has it.
    pub open spec fn same_as(&self, other: Controls) -> bool {
        match (*self, other) {
            (Controls::Inject(a), Controls::Inject(b)) => a.same_as(b),
            (Controls::SleepTime(a), Controls::SleepTime(b)) => a == b,
            _ => false,
        }
    }
}

impl Clone for Controls {
    fn clone(&self) -> (r: Controls)
        ensures
            self.same_as(r),
    {
        match self {
            Controls::Inject(obj) => Controls::Inject(obj.clone()),
            Controls::SleepTime(sleep_time) => Controls::SleepTime(*sleep_time),
        }
    }
}

/// The code that a shutdown request must carry.
pub open spec fn shutdown_code() -> Seq<char> {
    "0xDEADBEEF"@
}

/// Whether a shutdown request carries the right code.
pub fn is_shutdown_code(magic_code: &str) -> (r: bool)
    ensures
        r == (magic_code@ == shutdown_code()),
{
    same_text(magic_code, "0xDEADBEEF")
}

/// Whether a request to change the throttle is accepted: the new sleep
/// time must be positive.
pub fn accepts_sleep_time(sleep_time: u64) -> (r: bool)
    ensures
        r == (sleep_time > 0),
{
    sleep_time > 0
}

} // verus!
