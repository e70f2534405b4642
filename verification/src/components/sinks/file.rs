//! A sink that writes every object as one line of a file.

use crate::config::sinks::FileSinkConfig;
use crate::utils::count::{count, counted};
use vstd::prelude::*;
use vstd::string::{StrSliceExecFns, StringExecFns, StringSliceAdditionalSpecFns};

verus! {

/// The sink with the name of its file and the count of what it wrote.
pub struct FileSink {
    pub name: String,
    pub sent_objs: u64,
    pub filename: String,
}

/// The byte that ends a line.
pub const LINE_END: u8 = 0x0A;

impl FileSink {
    /// The sink is as the configuration describes it, has written nothing
    /// yet, and writes to the file whose name is the configured one, an
    /// underscore, and the text of the moment at which the sink was made.
    pub open spec fn configured_by(&self, cfg: FileSinkConfig, started: Seq<char>) -> bool {
        &&& self.name@ == cfg.name@
        &&& self.sent_objs == 0
        &&& self.filename@ == cfg.filename@ + "_"@ + started
    }

    pub fn new(cfg: &FileSinkConfig, started: &str) -> (r: FileSink)
        ensures
            r.configured_by(*cfg, started@),
    {
        let mut filename = cfg.filename.clone();
        filename.append("_");
        filename.append(started);
        FileSink { name: cfg.name.clone(), sent_objs: 0, filename }
    }

    /// The bytes that are written for an object: its text, then the end
    /// of the line.
    pub fn line(wire: &str) -> (r: Vec<u8>)
        ensures
            r@ == wire.spec_bytes().push(LINE_END),
    {
        let mut bytes = wire.as_bytes_vec();
        bytes.push(LINE_END);
        bytes
    }

    /// Notes how the writing of an object ended: a written object is
    /// counted, a failure is handed on.
    pub fn send(&mut self, written: Result<(), String>) -> (r: Result<(), String>)
        ensures
            written is Ok ==> r is Ok,
            written is Err ==> r == written,
            final(self).name == old(self).name,
            final(self).filename == old(self).filename,
            final(self).sent_objs == if written is Ok {
                counted(old(self).sent_objs)
            } else {
                old(self).sent_objs
            },
    {
        match written {
            Ok(()) => {
                self.sent_objs = count(self.sent_objs);
                Ok(())
            },
            Err(e) => Err(e),
        }
    }

    pub fn get_name(&self) -> (r: &str)
        ensures
            r@ == self.name@,
    {
        self.name.as_str()
    }
}

} // verus!
