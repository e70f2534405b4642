//! Core of a streaming market-data engine: the normalized object model, a
//! fixed-point price scalar, the per-symbol order book with its update rules
//! and analytics, the market registry, and the decision logic of the pipeline
//! stages that move these objects around.

pub mod components;
pub mod config;
pub mod objects;
pub mod processor;
pub mod utils;
