//! Proximity-based authentication: decides, within a bounded time window,
//! whether a paired wireless device is near the host.
//!
//! The library holds the decisions of one authentication attempt as
//! functions from plain values to plain values; the wireless stack, the
//! timer and the configuration file are driven by the caller.

pub mod adapter;
pub mod address;
pub mod engine;
pub mod error;
pub mod laws;
pub mod settings;
