//! Core engine of a network speed test: online statistics, nearest-rank
//! metrics, adaptive request-size backoff, steady-state window estimation,
//! a STUN-style UDP loss probe, and the run-lifecycle state machine.
//!
//! Measured times are carried as integer microseconds (or milliseconds where
//! noted) and transfer rates as integer bits per second; presentation layers
//! convert to whatever display units they need.

pub mod controller;
pub mod engine;
pub mod latency;
pub mod metrics;
pub mod model;
pub mod stats;
pub mod throughput;
pub mod turn_udp;
