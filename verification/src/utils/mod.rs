//! Helpers around counting, time, texts and addresses.

pub mod count;
pub mod http;
pub mod text;
pub mod time;
