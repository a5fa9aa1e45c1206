//! Liveness probing for network endpoints.
//!
//! A prober binds to one endpoint and determines whether it is reachable,
//! either by a bounded-retry TCP connect loop or by a single ICMP echo
//! exchange. Every prober caches the outcome of its most recent successful
//! probe and serves it back without re-probing.

pub mod endpoint;
pub mod icmp;
pub mod outcome;
pub mod policy;
pub mod prober;
pub mod scripted;
pub mod tcp;
