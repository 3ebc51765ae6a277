//! Host runtime metrics as one JSON document.
//!
//! A set of named collector plugins each turn a snapshot of one metric family
//! (clock, uptime, memory, CPU load, network interfaces, sockets, filesystems)
//! into a JSON-like document; an aggregator merges the documents into one
//! response keyed by collector name.  A periodic sampler provides the latest
//! value of metrics that need two time-separated OS reads.
//!
//! The OS metrics source and the HTTP transport are external collaborators:
//! callers query the OS and hand the typed readings in, and serialize the
//! resulting document out.

pub mod clock;
pub mod config;
pub mod interval_collector;
pub mod json;
pub mod plugin;
pub mod stats;
pub mod stats_collector;
pub mod utils;
