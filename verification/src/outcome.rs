//! The shared outcome vocabulary: what a probe determined, how a probe
//! mechanism can fail, and what the single-slot result cache holds.

use vstd::prelude::*;

verus! {

/// The determination of a completed probe.
///
/// `Up` and `Down` are the two live outcomes of a probe that ran to
/// completion. `Indeterminate` records that a probe finished without being
/// able to decide liveness either way; it is never confused with `Down`,
/// which is a positive determination of non-liveness.
#[derive(Clone, Copy, Debug, PartialEq, Eq, Structural)]
pub enum ProbeResult {
    Up,
    Down,
    Indeterminate,
}

/// A probe mechanism failure: the probe could not run to completion.
///
/// `IcmpError` is the transport-layer kind (no raw-socket permission, no
/// route, a malformed or version-mismatched echo reply). `WebSocketError` is
/// the connect-layer kind, reserved for failures outside the retry loop,
/// such as a malformed endpoint; exhausted retries are a `Down` outcome,
/// never an error.
#[derive(Clone, Copy, Debug, PartialEq, Eq, Structural)]
pub enum PingError {
    IcmpError,
    WebSocketError,
}

/// The single-slot cache of the most recent probe outcome.
///
/// A prober starts in `NotYetProbed`; every probe that returns a result
/// overwrites the slot with `Probed` of that result, and a failed probe
/// leaves the slot exactly as it was.
#[derive(Clone, Copy, Debug, PartialEq, Eq, Structural)]
pub enum CachedResult {
    NotYetProbed,
    Probed(ProbeResult),
}

} // verus!
