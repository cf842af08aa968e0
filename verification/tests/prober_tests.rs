use socks5_relay::error::ProxyError;
use socks5_relay::prober::{
    ProbeAction, ProbeEvent, ProbePolicy, ProbeStage, Prober, MAX_PROBE_ATTEMPTS,
    PROBE_DELAY_SECS,
};

/// Runs a probe against an upstream that accepts at the given attempt, if at
/// any, and returns the final action with the attempts and pauses it took.
fn probe(policy: ProbePolicy, accepts_at: Option<u32>) -> (ProbeAction, u32, Vec<u64>) {
    let mut prober = Prober::new(policy);
    let mut attempts = 0;
    let mut pauses = Vec::new();
    loop {
        let event = match prober.action() {
            ProbeAction::Attempt => {
                attempts += 1;
                if Some(attempts) == accepts_at {
                    ProbeEvent::Accepted
                } else {
                    ProbeEvent::Refused
                }
            }
            ProbeAction::Wait(secs) => {
                pauses.push(secs);
                ProbeEvent::Waited
            }
            last => return (last, attempts, pauses),
        };
        assert!(!prober.is_ready());
        prober = prober.advance(event);
    }
}

#[test]
fn standard_policy_is_ten_attempts_one_second_apart() {
    let policy = ProbePolicy::standard();
    assert_eq!(policy.max_attempts, 10);
    assert_eq!(policy.delay_secs, 1);
    assert_eq!(MAX_PROBE_ATTEMPTS, 10);
    assert_eq!(PROBE_DELAY_SECS, 1);
}

#[test]
fn upstream_that_never_accepts_times_out_after_ten_attempts() {
    let (last, attempts, pauses) = probe(ProbePolicy::standard(), None);
    assert_eq!(last, ProbeAction::GiveUp(ProxyError::StartupTimeout));
    assert_eq!(attempts, 10);
    assert_eq!(pauses, vec![1; 10]);
}

#[test]
fn first_success_ends_the_probe_at_once() {
    let (last, attempts, pauses) = probe(ProbePolicy::standard(), Some(1));
    assert_eq!(last, ProbeAction::Proceed);
    assert_eq!(attempts, 1);
    assert!(pauses.is_empty());
}

#[test]
fn success_at_a_later_attempt() {
    let (last, attempts, pauses) = probe(ProbePolicy::standard(), Some(4));
    assert_eq!(last, ProbeAction::Proceed);
    assert_eq!(attempts, 4);
    assert_eq!(pauses, vec![1; 3]);
}

#[test]
fn success_at_the_last_attempt() {
    let (last, attempts, pauses) = probe(ProbePolicy::standard(), Some(10));
    assert_eq!(last, ProbeAction::Proceed);
    assert_eq!(attempts, 10);
    assert_eq!(pauses, vec![1; 9]);
}

#[test]
fn other_budgets() {
    let policy = ProbePolicy { max_attempts: 3, delay_secs: 5 };
    let (last, attempts, pauses) = probe(policy, None);
    assert_eq!(last, ProbeAction::GiveUp(ProxyError::StartupTimeout));
    assert_eq!(attempts, 3);
    assert_eq!(pauses, vec![5, 5, 5]);

    let single = ProbePolicy { max_attempts: 1, delay_secs: 0 };
    assert_eq!(probe(single, None), (ProbeAction::GiveUp(ProxyError::StartupTimeout), 1, vec![0]));
    assert_eq!(probe(single, Some(1)), (ProbeAction::Proceed, 1, vec![]));
}

#[test]
fn budget_of_no_attempts_has_timed_out() {
    let policy = ProbePolicy { max_attempts: 0, delay_secs: 1 };
    let prober = Prober::new(policy);
    assert_eq!(prober.stage, ProbeStage::TimedOut);
    assert_eq!(prober.action(), ProbeAction::GiveUp(ProxyError::StartupTimeout));
    assert!(!prober.is_ready());
}

#[test]
fn probe_counts_its_attempts_down() {
    let mut prober = Prober::new(ProbePolicy::standard());
    assert_eq!(prober.attempts_left, 10);
    prober = prober.advance(ProbeEvent::Refused);
    assert_eq!(prober.stage, ProbeStage::Waiting);
    assert_eq!(prober.attempts_left, 9);
    prober = prober.advance(ProbeEvent::Waited);
    assert_eq!(prober.stage, ProbeStage::Attempting);
    prober = prober.advance(ProbeEvent::Accepted);
    assert_eq!(prober.stage, ProbeStage::Ready);
    assert_eq!(prober.attempts_left, 8);
    assert!(prober.is_ready());
}

#[test]
fn events_out_of_turn_change_nothing() {
    let start = Prober::new(ProbePolicy::standard());
    assert_eq!(start.advance(ProbeEvent::Waited), start);
    let waiting = start.advance(ProbeEvent::Refused);
    assert_eq!(waiting.advance(ProbeEvent::Accepted), waiting);
    assert_eq!(waiting.advance(ProbeEvent::Refused), waiting);
    let ready = start.advance(ProbeEvent::Accepted);
    for event in [ProbeEvent::Accepted, ProbeEvent::Refused, ProbeEvent::Waited] {
        assert_eq!(ready.advance(event), ready);
    }
}

#[test]
fn timed_out_probe_stays_timed_out() {
    let policy = ProbePolicy { max_attempts: 1, delay_secs: 1 };
    let done = Prober::new(policy).advance(ProbeEvent::Refused).advance(ProbeEvent::Waited);
    assert_eq!(done.stage, ProbeStage::TimedOut);
    for event in [ProbeEvent::Accepted, ProbeEvent::Refused, ProbeEvent::Waited] {
        assert_eq!(done.advance(event), done);
        assert!(!done.advance(event).is_ready());
    }
}
