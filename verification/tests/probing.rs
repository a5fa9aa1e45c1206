use youup::endpoint::{Endpoint, HostAddr};
use youup::icmp::{EchoEvent, IcmpDest};
use youup::outcome::{CachedResult, PingError, ProbeResult};
use youup::policy::RetryPolicy;
use youup::prober::{ping_then_cache, Pingable};
use youup::scripted::ScriptedProber;
use youup::tcp::WebSocketDest;

#[test]
fn ping_returns_error() {
    let mut pinger = ScriptedProber::new();
    pinger.push(Err(PingError::IcmpError));
    let res = pinger.ping();
    assert_eq!(PingError::IcmpError, res.err().unwrap());
}

#[test]
fn cache_returns_most_recent_result() {
    let mut pinger = ScriptedProber::new();
    pinger.push(Ok(ProbeResult::Up));
    pinger.push(Err(PingError::IcmpError));
    let first = pinger.ping();
    assert_eq!(Ok(ProbeResult::Up), first);
    let second = pinger.ping();
    assert_eq!(PingError::IcmpError, second.err().unwrap());
    // The failed second probe left the cache at the first probe's value.
    assert_eq!(CachedResult::Probed(ProbeResult::Up), pinger.cache());
}

#[test]
fn cache_is_not_yet_probed_before_any_ping() {
    let scripted = ScriptedProber::new();
    assert_eq!(CachedResult::NotYetProbed, scripted.cache());
    let icmp = IcmpDest::new(Endpoint::localhost_8080());
    assert_eq!(CachedResult::NotYetProbed, icmp.cache());
    let tcp = WebSocketDest::new(Endpoint::localhost_8080());
    assert_eq!(CachedResult::NotYetProbed, tcp.cache());
}

#[test]
fn refused_target_exhausts_all_attempts() {
    let mut dest = WebSocketDest::with_policy(
        Endpoint::localhost_8080(),
        RetryPolicy::new(5, 1000),
    );
    let mut run = dest.start().unwrap();
    let mut delays: u32 = 0;
    while run.finished().is_none() {
        run.record(false);
        if run.needs_delay() {
            delays += 1;
        }
    }
    assert_eq!(Some(ProbeResult::Down), run.finished());
    assert_eq!(5, run.attempts());
    // The delay falls between attempts only: four pauses for five attempts.
    assert_eq!(4, delays);
    dest.complete(&run);
    assert_eq!(CachedResult::Probed(ProbeResult::Down), dest.cache());
}

#[test]
fn early_success_stops_the_retry_loop() {
    let dest = WebSocketDest::with_policy(
        Endpoint::localhost_8080(),
        RetryPolicy::new(5, 1000),
    );
    let mut run = dest.start().unwrap();
    run.record(false);
    assert_eq!(None, run.finished());
    run.record(true);
    assert_eq!(Some(ProbeResult::Up), run.finished());
    assert_eq!(2, run.attempts());
    assert!(!run.needs_delay());
}

#[test]
fn replayed_run_concludes_down_after_five_refusals() {
    let mut dest = WebSocketDest::with_policy(
        Endpoint::localhost_8080(),
        RetryPolicy::new(5, 1000),
    );
    let outcomes = vec![false, false, false, false, false];
    assert_eq!(Ok(ProbeResult::Down), dest.ping(&outcomes));
    assert_eq!(CachedResult::Probed(ProbeResult::Down), dest.cache());
}

#[test]
fn replayed_run_concludes_up_at_first_success() {
    let mut dest = WebSocketDest::with_policy(
        Endpoint::localhost_8080(),
        RetryPolicy::new(5, 1000),
    );
    let outcomes = vec![false, true, false, false, false];
    assert_eq!(Ok(ProbeResult::Up), dest.ping(&outcomes));
    assert_eq!(CachedResult::Probed(ProbeResult::Up), dest.cache());
}

#[test]
fn policy_allowing_no_attempt_concludes_down_at_once() {
    let mut dest = WebSocketDest::with_policy(
        Endpoint::localhost_8080(),
        RetryPolicy::new(0, 1000),
    );
    let outcomes: Vec<bool> = vec![];
    assert_eq!(Ok(ProbeResult::Down), dest.ping(&outcomes));
    let run = dest.start().unwrap();
    assert_eq!(Some(ProbeResult::Down), run.finished());
    assert_eq!(0, run.attempts());
}

#[test]
fn malformed_endpoint_is_a_connect_error_and_leaves_cache_alone() {
    let mut dest = WebSocketDest::with_policy(
        Endpoint::new(HostAddr::V4(127, 0, 0, 1), 0),
        RetryPolicy::new(5, 1000),
    );
    assert_eq!(PingError::WebSocketError, dest.start().err().unwrap());
    let outcomes = vec![false, false, false, false, false];
    assert_eq!(Err(PingError::WebSocketError), dest.ping(&outcomes));
    assert_eq!(CachedResult::NotYetProbed, dest.cache());
}

#[test]
fn echo_timeout_is_the_down_outcome() {
    let mut dest = IcmpDest::with_timeout(Endpoint::localhost_8080(), 2000);
    assert_eq!(2000, dest.timeout());
    // One send/receive cycle per probe: a single event settles the probe.
    assert_eq!(Ok(ProbeResult::Down), dest.ping(EchoEvent::Timeout));
    assert_eq!(CachedResult::Probed(ProbeResult::Down), dest.cache());
}

#[test]
fn missing_raw_socket_permission_is_a_transport_error() {
    let mut dest = IcmpDest::new(Endpoint::localhost_8080());
    assert_eq!(Err(PingError::IcmpError), dest.ping(EchoEvent::PermissionDenied));
    // The failed probe never touched the cache.
    assert_eq!(CachedResult::NotYetProbed, dest.cache());
}

#[test]
fn matching_echo_reply_is_the_up_outcome() {
    let mut v4 = IcmpDest::new(Endpoint::new(HostAddr::V4(192, 0, 2, 1), 0));
    assert_eq!(Ok(ProbeResult::Up), v4.ping(EchoEvent::ReplyV4));
    let mut v6 = IcmpDest::new(Endpoint::new(
        HostAddr::V6(0x2001, 0xdb8, 0, 0, 0, 0, 0, 1),
        0,
    ));
    assert_eq!(Ok(ProbeResult::Up), v6.ping(EchoEvent::ReplyV6));
}

#[test]
fn mismatched_or_malformed_reply_is_a_transport_error_not_down() {
    let mut v4 = IcmpDest::new(Endpoint::new(HostAddr::V4(192, 0, 2, 1), 0));
    assert_eq!(Err(PingError::IcmpError), v4.ping(EchoEvent::ReplyV6));
    assert_eq!(Err(PingError::IcmpError), v4.ping(EchoEvent::MalformedReply));
    assert_eq!(Err(PingError::IcmpError), v4.ping(EchoEvent::NoRoute));
    let mut v6 = IcmpDest::new(Endpoint::new(
        HostAddr::V6(0x2001, 0xdb8, 0, 0, 0, 0, 0, 1),
        0,
    ));
    assert_eq!(Err(PingError::IcmpError), v6.ping(EchoEvent::ReplyV4));
}

#[test]
fn scripted_prober_replays_its_script_in_order() {
    let mut pinger = ScriptedProber::new();
    pinger.push(Ok(ProbeResult::Down));
    pinger.push(Ok(ProbeResult::Up));
    pinger.push(Ok(ProbeResult::Indeterminate));
    assert_eq!(Ok(ProbeResult::Down), pinger.ping());
    assert_eq!(Ok(ProbeResult::Up), pinger.ping());
    assert_eq!(Ok(ProbeResult::Indeterminate), pinger.ping());
    // A script that has run out answers with the transport error.
    assert_eq!(Err(PingError::IcmpError), pinger.ping());
    assert_eq!(CachedResult::Probed(ProbeResult::Indeterminate), pinger.cache());
}

#[test]
fn fresh_outcome_and_cache_agree_for_any_prober() {
    let mut pinger = ScriptedProber::new();
    pinger.push(Ok(ProbeResult::Down));
    pinger.push(Err(PingError::IcmpError));
    let (first, seen) = ping_then_cache(&mut pinger);
    assert_eq!(Ok(ProbeResult::Down), first);
    assert_eq!(CachedResult::Probed(ProbeResult::Down), seen);
    let (second, after) = ping_then_cache(&mut pinger);
    assert_eq!(Err(PingError::IcmpError), second);
    assert_eq!(seen, after);
}

#[test]
fn default_retry_policy_is_five_attempts_a_second_apart() {
    let policy = RetryPolicy::default();
    assert_eq!(5, policy.max);
    assert_eq!(1000, policy.delay_ms);
    let dest = WebSocketDest::new(Endpoint::localhost_8080());
    assert_eq!(RetryPolicy::new(5, 1000), dest.policy());
}

#[test]
fn default_icmp_prober_binds_loopback_8080() {
    let dest = IcmpDest::default();
    assert_eq!(2000, dest.timeout());
    assert_eq!(CachedResult::NotYetProbed, dest.cache());
}
