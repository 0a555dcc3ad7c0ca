//! Core of an object-storage micro-benchmark: configuration, the
//! bounded-concurrency runner, the phase sequencer, operation timing and the
//! percentile statistics engine. Durations are whole nanoseconds throughout.

pub mod config;
pub mod duration;
pub mod runner;
pub mod stats;
pub mod sequencer;
pub mod task;
