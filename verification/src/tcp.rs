//! The TCP connect prober: a bounded-retry connection loop.
//!
//! One probe makes up to `RetryPolicy::max` connection attempts, stopping
//! at the first success. A refused or failed attempt is consumed by the
//! loop, never surfaced as an error: exhausting every attempt is the
//! `Down` outcome. The connection attempts and the inter-attempt delays
//! happen outside this module; the verified [`ProbeRun`] machine takes each
//! attempt's outcome as a plain value and decides what follows, and
//! [`WebSocketDest::ping`] replays a whole recorded run through the same
//! machine.

use vstd::prelude::*;

use crate::endpoint::Endpoint;
use crate::outcome::{CachedResult, PingError, ProbeResult};
use crate::policy::RetryPolicy;

verus! {

/// How many connection attempts a probe makes when the consecutive
/// attempts report `outcomes` and at most `max` attempts are allowed: one
/// per leading failure, stopping at the first success or when `max` is
/// spent.
pub open spec fn attempts_used(outcomes: Seq<bool>, max: nat) -> nat
    decreases max,
{
    if max == 0 || outcomes.len() == 0 {
        0
    } else if outcomes[0] {
        1
    } else {
        (1 + attempts_used(outcomes.skip(1), (max - 1) as nat)) as nat
    }
}

/// The outcome of a bounded-retry probe whose consecutive attempts report
/// `outcomes`: `Up` as soon as one of the first `max` attempts succeeds,
/// `Down` when all allowed attempts fail.
pub open spec fn retry_verdict(outcomes: Seq<bool>, max: nat) -> ProbeResult
    decreases max,
{
    if max == 0 || outcomes.len() == 0 {
        ProbeResult::Down
    } else if outcomes[0] {
        ProbeResult::Up
    } else {
        retry_verdict(outcomes.skip(1), (max - 1) as nat)
    }
}

/// Against a target that refuses every attempt, a probe allowed `max >= 1`
/// attempts makes exactly `max` of them and concludes `Down`.
pub proof fn lemma_refused_target_exhausts_attempts(outcomes: Seq<bool>, max: nat)
    requires
        max >= 1,
        outcomes.len() >= max,
        forall|i: int| 0 <= i < max ==> !outcomes[i],
    ensures
        attempts_used(outcomes, max) == max,
        retry_verdict(outcomes, max) == ProbeResult::Down,
    decreases max,
{
    assert(!outcomes[0]);
    if max > 1 {
        let rest = outcomes.skip(1);
        assert(forall|i: int| 0 <= i < max - 1 ==> !rest[i]);
        lemma_refused_target_exhausts_attempts(rest, (max - 1) as nat);
    } else {
        assert(attempts_used(outcomes.skip(1), 0) == 0);
        assert(retry_verdict(outcomes.skip(1), 0) == ProbeResult::Down);
    }
}

/// If the `k`-th attempt (`k <= max`) is the first to succeed, the probe
/// makes exactly `k` attempts and concludes `Up`.
pub proof fn lemma_early_success_stops_retry(outcomes: Seq<bool>, k: nat, max: nat)
    requires
        1 <= k <= max,
        outcomes.len() >= k,
        outcomes[k - 1],
        forall|i: int| 0 <= i < k - 1 ==> !outcomes[i],
    ensures
        attempts_used(outcomes, max) == k,
        retry_verdict(outcomes, max) == ProbeResult::Up,
    decreases k,
{
    if k == 1 {
        assert(outcomes[0]);
    } else {
        assert(!outcomes[0]);
        let rest = outcomes.skip(1);
        assert(rest[k - 2] == outcomes[k - 1]);
        assert(forall|i: int| 0 <= i < k - 2 ==> rest[i] == outcomes[i + 1]);
        lemma_early_success_stops_retry(rest, (k - 1) as nat, (max - 1) as nat);
    }
}

/// One bounded-retry probe in progress: how many attempts were made, what
/// they reported, and whether the probe has concluded.
///
/// Whoever drives the run makes a connection attempt whenever the run is
/// unfinished, reports its outcome with [`record`](ProbeRun::record), and
/// pauses for [`delay_ms`](ProbeRun::delay_ms) only when the run is still
/// unfinished afterwards — so the delay falls between attempts, never
/// after the final one.
pub struct ProbeRun {
    max: u64,
    delay: u64,
    made: u64,
    done: Option<ProbeResult>,
    history: Ghost<Seq<bool>>,
}

impl ProbeRun {
    /// The attempt bound this run was started with.
    pub closed spec fn max_spec(&self) -> u64 {
        self.max
    }

    /// The inter-attempt delay this run was started with, in milliseconds.
    pub closed spec fn delay_spec(&self) -> u64 {
        self.delay
    }

    /// How many attempts have been recorded so far.
    pub closed spec fn attempts_spec(&self) -> u64 {
        self.made
    }

    /// The outcomes recorded so far, in order.
    pub closed spec fn history(&self) -> Seq<bool> {
        self.history@
    }

    /// The conclusion, once the run has one.
    pub closed spec fn done_spec(&self) -> Option<ProbeResult> {
        self.done
    }

    /// The run's bookkeeping is consistent: attempts match the history,
    /// an unfinished run has only failures so far and attempts to spare,
    /// and a finished run concluded exactly what the retry rule says.
    pub closed spec fn wf(&self) -> bool {
        &&& self.history@.len() == self.made as nat
        &&& self.made <= self.max
        &&& match self.done {
            Option::None => {
                &&& self.made < self.max
                &&& forall|i: int| 0 <= i < self.made ==> !self.history@[i]
            },
            Option::Some(v) => {
                &&& v == retry_verdict(self.history@, self.max as nat)
                &&& self.made as nat == attempts_used(self.history@, self.max as nat)
            },
        }
    }

    /// Starts a run under the given policy. A policy that allows no
    /// attempt at all concludes `Down` on the spot.
    pub fn new(policy: &RetryPolicy) -> (run: ProbeRun)
        ensures
            run.wf(),
            run.max_spec() == policy.max,
            run.delay_spec() == policy.delay_ms,
            run.attempts_spec() == 0,
            run.history() == Seq::<bool>::empty(),
            run.done_spec() == (if policy.max == 0 {
                Option::Some(ProbeResult::Down)
            } else {
                Option::<ProbeResult>::None
            }),
    {
        let done: Option<ProbeResult> = if policy.max == 0 {
            Some(ProbeResult::Down)
        } else {
            None
        };
        let run = ProbeRun {
            max: policy.max,
            delay: policy.delay_ms,
            made: 0,
            done,
            history: Ghost(Seq::empty()),
        };
        proof {
            assert(run.history@ =~= Seq::<bool>::empty());
        }
        run
    }

    /// The conclusion so far: `None` while another attempt is owed.
    pub fn finished(&self) -> (d: Option<ProbeResult>)
        ensures
            d == self.done_spec(),
    {
        self.done
    }

    /// How many attempts have been made.
    pub fn attempts(&self) -> (n: u64)
        ensures
            n == self.attempts_spec(),
    {
        self.made
    }

    /// How long to pause before the next attempt, in milliseconds.
    pub fn delay_ms(&self) -> (d: u64)
        ensures
            d == self.delay_spec(),
    {
        self.delay
    }

    /// Whether the driver owes a pause: only an unfinished run with at
    /// least one attempt behind it waits, so no delay ever follows the
    /// final attempt.
    pub fn needs_delay(&self) -> (b: bool)
        ensures
            b == (self.done_spec() is None && self.attempts_spec() > 0),
    {
        self.done.is_none() && self.made > 0
    }

    /// Takes the outcome of one connection attempt: a success concludes
    /// `Up` at once, a failure concludes `Down` when it was the last
    /// allowed attempt and otherwise leaves the run waiting for the next.
    pub fn record(&mut self, connected: bool)
        requires
            old(self).wf(),
            old(self).done_spec() is None,
        ensures
            final(self).wf(),
            final(self).max_spec() == old(self).max_spec(),
            final(self).delay_spec() == old(self).delay_spec(),
            final(self).attempts_spec() == old(self).attempts_spec() + 1,
            final(self).history() == old(self).history().push(connected),
            final(self).done_spec() == (if connected {
                Option::Some(ProbeResult::Up)
            } else if old(self).attempts_spec() + 1 == old(self).max_spec() {
                Option::Some(ProbeResult::Down)
            } else {
                Option::<ProbeResult>::None
            }),
    {
        self.made = self.made + 1;
        proof {
            self.history@ = self.history@.push(connected);
        }
        if connected {
            self.done = Some(ProbeResult::Up);
            proof {
                lemma_early_success_stops_retry(
                    self.history@,
                    self.made as nat,
                    self.max as nat,
                );
            }
        } else if self.made == self.max {
            self.done = Some(ProbeResult::Down);
            proof {
                lemma_refused_target_exhausts_attempts(self.history@, self.max as nat);
            }
        }
    }
}

/// A prober that determines liveness by connecting to the endpoint's
/// stream socket, with bounded retry.
pub struct WebSocketDest {
    addr: Endpoint,
    policy: RetryPolicy,
    cache: CachedResult,
}

impl WebSocketDest {
    /// The endpoint this prober was bound to at construction.
    pub closed spec fn bound(&self) -> Endpoint {
        self.addr
    }

    /// The retry policy this prober probes under.
    pub closed spec fn policy_spec(&self) -> RetryPolicy {
        self.policy
    }

    /// The current content of the result cache.
    pub closed spec fn cached(&self) -> CachedResult {
        self.cache
    }

    /// Binds a prober to one endpoint under the default policy of five
    /// attempts one second apart.
    pub fn new(addr: Endpoint) -> (p: WebSocketDest)
        ensures
            p.bound() == addr,
            p.policy_spec() == (RetryPolicy { max: 5u64, delay_ms: 1000u64 }),
            p.cached() == CachedResult::NotYetProbed,
    {
        WebSocketDest { addr, policy: RetryPolicy::default(), cache: CachedResult::NotYetProbed }
    }

    /// Binds a prober to one endpoint under an explicit retry policy.
    pub fn with_policy(addr: Endpoint, policy: RetryPolicy) -> (p: WebSocketDest)
        ensures
            p.bound() == addr,
            p.policy_spec() == policy,
            p.cached() == CachedResult::NotYetProbed,
    {
        WebSocketDest { addr, policy, cache: CachedResult::NotYetProbed }
    }

    /// Reads the retry policy, for whoever drives the connection attempts.
    pub fn policy(&self) -> (p: RetryPolicy)
        ensures
            p == self.policy_spec(),
    {
        self.policy
    }

    /// Starts one probe: rejects a malformed endpoint (port zero has no
    /// listener to connect to) with the connect-layer error, and otherwise
    /// hands out a fresh run under this prober's policy.
    pub fn start(&self) -> (r: Result<ProbeRun, PingError>)
        ensures
            (r is Err <==> self.bound().port == 0),
            (r matches Err(e) ==> e == PingError::WebSocketError),
            (r matches Ok(run) ==> run.wf() && run.max_spec() == self.policy_spec().max
                && run.delay_spec() == self.policy_spec().delay_ms && run.attempts_spec() == 0
                && run.history() == Seq::<bool>::empty() && run.done_spec() == (
            if self.policy_spec().max == 0 {
                Option::Some(ProbeResult::Down)
            } else {
                Option::<ProbeResult>::None
            })),
    {
        if self.addr.port == 0 {
            Err(PingError::WebSocketError)
        } else {
            Ok(ProbeRun::new(&self.policy))
        }
    }

    /// Files a finished run's conclusion in the cache. The driver calls
    /// this once, with the run it started here, as soon as the run
    /// concludes.
    pub fn complete(&mut self, run: &ProbeRun)
        requires
            run.done_spec() is Some,
            run.max_spec() == old(self).policy_spec().max,
            run.delay_spec() == old(self).policy_spec().delay_ms,
        ensures
            final(self).cached() == CachedResult::Probed(run.done_spec().unwrap()),
            final(self).bound() == old(self).bound(),
            final(self).policy_spec() == old(self).policy_spec(),
    {
        let d = run.finished();
        if let Some(v) = d {
            self.cache = CachedResult::Probed(v);
        }
    }

    /// Performs one whole probe from a recorded run: replays the attempts'
    /// outcomes through the retry machine, files the conclusion in the
    /// cache, and leaves the cache alone when the endpoint is malformed.
    /// The script must report an outcome for every attempt the policy
    /// allows; the machine still stops at the first success.
    pub fn ping(&mut self, outcomes: &Vec<bool>) -> (r: Result<ProbeResult, PingError>)
        requires
            outcomes@.len() >= old(self).policy_spec().max,
        ensures
            (old(self).bound().port == 0 ==> r == Result::<ProbeResult, PingError>::Err(
                PingError::WebSocketError,
            ) && final(self).cached() == old(self).cached()),
            (old(self).bound().port != 0 ==> r == Result::<ProbeResult, PingError>::Ok(
                retry_verdict(outcomes@, old(self).policy_spec().max as nat),
            ) && final(self).cached() == CachedResult::Probed(
                retry_verdict(outcomes@, old(self).policy_spec().max as nat),
            )),
            final(self).bound() == old(self).bound(),
            final(self).policy_spec() == old(self).policy_spec(),
    {
        let started = self.start();
        let mut run = match started {
            Ok(run) => run,
            Err(e) => {
                return Err(e);
            },
        };
        let ghost maxn = self.policy.max as nat;
        let n = outcomes.len();
        let mut i: usize = 0;
        let mut done: Option<ProbeResult> = run.finished();
        proof {
            assert(run.history() =~= outcomes@.take(0));
            if run.done_spec() is Some {
                assert(retry_verdict(outcomes@, 0) == ProbeResult::Down);
            }
        }
        while done.is_none()
            invariant
                run.wf(),
                run.max_spec() == self.policy_spec().max,
                outcomes@.len() == n,
                outcomes@.len() >= run.max_spec(),
                done == run.done_spec(),
                run.attempts_spec() == i as u64,
                i <= run.max_spec(),
                run.history() == outcomes@.take(i as int),
                (run.done_spec() is None ==> forall|j: int| 0 <= j < i ==> !outcomes@[j]),
                (run.done_spec() matches Some(v) ==> v == retry_verdict(outcomes@, maxn)),
                maxn == self.policy_spec().max as nat,
            decreases run.max_spec() - i,
        {
            let connected = outcomes[i];
            run.record(connected);
            proof {
                assert(outcomes@.take(i + 1) =~= outcomes@.take(i as int).push(outcomes@[i as int]));
                if connected {
                    lemma_early_success_stops_retry(outcomes@, (i + 1) as nat, maxn);
                } else if i + 1 == self.policy_spec().max {
                    lemma_refused_target_exhausts_attempts(outcomes@, maxn);
                }
            }
            i = i + 1;
            done = run.finished();
        }
        let v = done.unwrap();
        self.cache = CachedResult::Probed(v);
        Ok(v)
    }

    /// Reads the cached outcome of the most recent successful probe.
    pub fn cache(&self) -> (r: CachedResult)
        ensures
            r == self.cached(),
    {
        self.cache
    }
}

} // verus!
