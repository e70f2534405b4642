//! The stages of a pipeline and the control path.

pub mod control;
pub mod processing_units;
pub mod sinks;
pub mod sources;
