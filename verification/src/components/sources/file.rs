//! A source that replays objects from a file, one per line.

use crate::config::sources::FileSourceConfig;
use crate::objects::Objects;
use crate::utils::count::{count, counted};
use vstd::prelude::*;

verus! {

/// The source with the name of its file and the count of what it read.
pub struct FileSource {
    pub name: String,
    pub queue_size: usize,
    pub sequence_number: u64,
    pub filename: String,
}

impl FileSource {
    /// The source is as the configuration describes it and has read
    /// nothing yet.
    pub open spec fn configured_by(&self, cfg: FileSourceConfig) -> bool {
        &&& self.name@ == cfg.name@
        &&& self.queue_size == cfg.queue_size
        &&& self.sequence_number == 0
        &&& self.filename@ == cfg.filename@
    }

    pub fn new(cfg: &FileSourceConfig) -> (r: FileSource)
        ensures
            r.configured_by(*cfg),
    {
        FileSource {
            name: cfg.name.clone(),
            queue_size: cfg.queue_size,
            sequence_number: 0,
            filename: cfg.filename.clone(),
        }
    }

    /// What the source hands on after a line was read: `bytes_read` is
    /// the length of the line, zero at the end of the file, and `decoded`
    /// is what the line decodes to.
    ///
    /// The end of the file completes the source. A line that decodes
    /// counts as one more message and is handed on; a line that does not
    /// is an error.
    pub fn recv(&mut self, bytes_read: usize, decoded: Result<Option<Objects>, String>) -> (r:
        Result<(Option<Objects>, bool), String>)
        ensures
            final(self).name == old(self).name,
            final(self).queue_size == old(self).queue_size,
            final(self).filename == old(self).filename,
            bytes_read == 0 ==> r == Ok::<(Option<Objects>, bool), String>((None, true))
                && final(self).sequence_number == old(self).sequence_number,
            bytes_read != 0 ==> match decoded {
                Ok(obj) => {
                    &&& r == Ok::<(Option<Objects>, bool), String>((obj, false))
                    &&& final(self).sequence_number == counted(old(self).sequence_number)
                },
                Err(e) => {
                    &&& r == Err::<(Option<Objects>, bool), String>(e)
                    &&& final(self).sequence_number == old(self).sequence_number
                },
            },
    {
        if bytes_read == 0 {
            return Ok((None, true));
        }
        match decoded {
            Ok(obj) => {
                self.sequence_number = count(self.sequence_number);
                Ok((obj, false))
            },
            Err(e) => Err(e),
        }
    }

    pub fn get_name(&self) -> (r: &str)
        ensures
            r@ == self.name@,
    {
        self.name.as_str()
    }

    pub fn get_queue_size(&self) -> (r: usize)
        ensures
            r == self.queue_size,
    {
        self.queue_size
    }

    /// A file source has no throttle.
    pub fn set_sleep_time(&mut self, _sleep_time: u64)
        ensures
            *final(self) == *old(self),
    {
    }
}

} // verus!
