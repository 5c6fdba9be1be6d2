//! A rolling-file writer core: rotation decisions, path transitions, and the
//! post-rotation compress/prune pipeline, verified over plain byte values.
//!
//! The filesystem itself is driven by a thin unverified shell; everything this
//! crate exports computes over bytes, integers and calendar fields.

pub mod config;
pub mod time;
pub mod paths;
pub mod engine;
pub mod pipeline;
pub mod laws;
