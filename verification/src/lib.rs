//! Traffic accounting for a monitored IPv4 subnet.
//!
//! Frames captured on a link are decoded, attributed to the addresses they
//! carry, and folded into per-address counters from which per-second rates
//! and TCP health signals are derived and exported.
//!
//! The library holds no clock, no lock and no socket: time comes in as a
//! reading of a monotonic clock in nanoseconds, frames come in as bytes,
//! and what is to be published goes out as plain figures.
//!
//! - [`subnet`]: the monitored addresses of a subnet
//! - [`frame`], [`wire`]: from frame bytes to a structured view
//! - [`entry`], [`store`]: the counters of each address and the TCP heuristics
//! - [`capture`]: from frames to updates of the store, and the capture loop's turns
//! - [`uplink`]: which uplink an address is attributed to
//! - [`exporter`], [`catalogue`], [`endpoint`]: what is published, under which names, and where
//! - [`schedule`]: the cadence of the background loops
//! - [`format`]: short byte counts for display
//! - [`laws`]: what holds of the store over every run of events

pub mod address;
pub mod wire;
pub mod frame;
pub mod subnet;
pub mod format;
pub mod entry;
pub mod store;
pub mod capture;
pub mod laws;
pub mod uplink;
pub mod exporter;
pub mod schedule;
pub mod catalogue;
pub mod endpoint;
