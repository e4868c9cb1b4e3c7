//! Geoping: the decisions behind a multi-protocol, multi-relay ping tool.
//!
//! The network work (resolving names, sending probes, talking to relays)
//! happens in the application around this library; the library holds what
//! is decided from the values that come back, with contracts checked by Verus.

pub mod target;
pub mod text;
pub mod model;
pub mod session;
pub mod schedule;
pub mod stats;
pub mod relay;
pub mod server;
pub mod geo;
pub mod render;
