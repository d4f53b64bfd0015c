//! Keeps a DNS A record pointed at the machine's public IPv4 address.
//!
//! The crate holds the decisions of the updater and none of its I/O: how a
//! request to the DNS provider is formed, how its answer is judged, whether
//! the record has drifted, and how long the polling loop pauses.

pub mod cloudflare;
pub mod error;
pub mod exchange;
pub mod model;
pub mod reconcile;
pub mod schedule;
pub mod trace;
