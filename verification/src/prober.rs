//! The start-up probe of the upstream proxy: a bounded number of connection
//! attempts with a fixed pause after each failure.
//!
//! The prober decides; its caller connects and sleeps. The local listener may
//! be bound only once the prober says `Proceed`.

use vstd::prelude::*;
use crate::error::ProxyError;

verus! {

/// How many attempts the standard policy allows.
pub const MAX_PROBE_ATTEMPTS: u32 = 10;

/// How many seconds the standard policy waits after a failed attempt.
pub const PROBE_DELAY_SECS: u64 = 1;

/// The budget of a probe.
#[derive(Clone, Copy, Debug, PartialEq, Eq, Structural)]
pub struct ProbePolicy {
    /// The number of connection attempts after which the probe gives up.
    pub max_attempts: u32,
    /// The pause after each failed attempt, in seconds.
    pub delay_secs: u64,
}

/// What came of the action that the prober asked for.
#[derive(Clone, Copy, Debug, PartialEq, Eq, Structural)]
pub enum ProbeEvent {
    /// The upstream address accepted the connection.
    Accepted,
    /// The connection attempt failed.
    Refused,
    /// The pause is over.
    Waited,
}

/// What the prober asks its caller to do next.
#[derive(Clone, Copy, Debug, PartialEq, Eq, Structural)]
pub enum ProbeAction {
    /// Connect to the upstream address and close the connection again.
    Attempt,
    /// Sleep for this many seconds.
    Wait(u64),
    /// The upstream proxy is listening: bind the local listener.
    Proceed,
    /// Give up for the given reason; no session is ever served.
    GiveUp(ProxyError),
}

/// Where a probe stands.
#[derive(Clone, Copy, Debug, PartialEq, Eq, Structural)]
pub enum ProbeStage {
    /// A connection attempt is due or under way.
    Attempting,
    /// The last attempt failed; the pause is due or under way.
    Waiting,
    /// An attempt succeeded.
    Ready,
    /// Every attempt failed.
    TimedOut,
}

/// A probe in progress.
#[derive(Clone, Copy, Debug, PartialEq, Eq, Structural)]
pub struct Prober {
    /// The budget that the probe runs on.
    pub policy: ProbePolicy,
    /// Where the probe stands.
    pub stage: ProbeStage,
    /// How many attempts the budget still holds, the one under way included.
    pub attempts_left: u32,
}

/// The policy of ten attempts, one second apart.
pub open spec fn standard_policy() -> ProbePolicy {
    ProbePolicy { max_attempts: MAX_PROBE_ATTEMPTS, delay_secs: PROBE_DELAY_SECS }
}

/// A probe before its first attempt. With a budget of no attempts it has
/// failed already.
pub open spec fn probe_start(policy: ProbePolicy) -> Prober {
    Prober {
        policy,
        stage: if policy.max_attempts == 0 {
            ProbeStage::TimedOut
        } else {
            ProbeStage::Attempting
        },
        attempts_left: policy.max_attempts,
    }
}

/// What a probe asks for.
pub open spec fn probe_action(p: Prober) -> ProbeAction {
    match p.stage {
        ProbeStage::Attempting => ProbeAction::Attempt,
        ProbeStage::Waiting => ProbeAction::Wait(p.policy.delay_secs),
        ProbeStage::Ready => ProbeAction::Proceed,
        ProbeStage::TimedOut => ProbeAction::GiveUp(ProxyError::StartupTimeout),
    }
}

/// One attempt fewer, and none where none was left.
pub open spec fn one_less(attempts: u32) -> u32 {
    if attempts > 0 {
        (attempts - 1) as u32
    } else {
        0
    }
}

/// The probe after one event.
///
/// Each answered attempt uses up one of the attempts. The first accepted one
/// makes the probe ready at once. A refused one is followed by the pause, the
/// last one too;
/// after the pause the probe tries again, or has timed out if no attempt is
/// left. An event that does not answer the action asked for changes nothing,
/// and `Ready` and `TimedOut` are final.
pub open spec fn probe_advance(p: Prober, event: ProbeEvent) -> Prober {
    match (p.stage, event) {
        (ProbeStage::Attempting, ProbeEvent::Accepted) => Prober {
            stage: ProbeStage::Ready,
            attempts_left: one_less(p.attempts_left),
            ..p
        },
        (ProbeStage::Attempting, ProbeEvent::Refused) => Prober {
            stage: ProbeStage::Waiting,
            attempts_left: one_less(p.attempts_left),
            ..p
        },
        (ProbeStage::Waiting, ProbeEvent::Waited) => Prober {
            stage: if p.attempts_left == 0 {
                ProbeStage::TimedOut
            } else {
                ProbeStage::Attempting
            },
            ..p
        },
        _ => p,
    }
}

impl ProbePolicy {
    /// The policy of ten attempts, one second apart.
    pub fn standard() -> (policy: ProbePolicy)
        ensures
            policy == standard_policy(),
    {
        ProbePolicy { max_attempts: MAX_PROBE_ATTEMPTS, delay_secs: PROBE_DELAY_SECS }
    }
}

impl Prober {
    /// A probe that has not tried yet.
    pub fn new(policy: ProbePolicy) -> (p: Prober)
        ensures
            p == probe_start(policy),
    {
        let stage = if policy.max_attempts == 0 {
            ProbeStage::TimedOut
        } else {
            ProbeStage::Attempting
        };
        Prober { policy, stage, attempts_left: policy.max_attempts }
    }

    /// What the probe asks its caller to do now.
    pub fn action(&self) -> (action: ProbeAction)
        ensures
            action == probe_action(*self),
    {
        match self.stage {
            ProbeStage::Attempting => ProbeAction::Attempt,
            ProbeStage::Waiting => ProbeAction::Wait(self.policy.delay_secs),
            ProbeStage::Ready => ProbeAction::Proceed,
            ProbeStage::TimedOut => ProbeAction::GiveUp(ProxyError::StartupTimeout),
        }
    }

    /// Takes what came of the last action and returns the probe after it.
    pub fn advance(self, event: ProbeEvent) -> (next: Prober)
        ensures
            next == probe_advance(self, event),
    {
        let fewer: u32 = if self.attempts_left > 0 {
            self.attempts_left - 1
        } else {
            0
        };
        match self.stage {
            ProbeStage::Attempting => match event {
                ProbeEvent::Accepted => Prober {
                    policy: self.policy,
                    stage: ProbeStage::Ready,
                    attempts_left: fewer,
                },
                ProbeEvent::Refused => Prober {
                    policy: self.policy,
                    stage: ProbeStage::Waiting,
                    attempts_left: fewer,
                },
                ProbeEvent::Waited => self,
            },
            ProbeStage::Waiting => match event {
                ProbeEvent::Waited => Prober {
                    policy: self.policy,
                    stage: if self.attempts_left == 0 {
                        ProbeStage::TimedOut
                    } else {
                        ProbeStage::Attempting
                    },
                    attempts_left: self.attempts_left,
                },
                _ => self,
            },
            _ => self,
        }
    }

    /// Whether the local listener may be bound.
    pub fn is_ready(&self) -> (ready: bool)
        ensures
            ready == (self.stage == ProbeStage::Ready),
    {
        match self.stage {
            ProbeStage::Ready => true,
            _ => false,
        }
    }
}

/// The probe that `start` has become after the events, in their order.
pub open spec fn probe_after(start: Prober, events: Seq<ProbeEvent>) -> Prober
    decreases events.len(),
{
    if events.len() == 0 {
        start
    } else {
        probe_advance(probe_after(start, events.drop_last()), events.last())
    }
}

/// How many connection attempts were made in the course of the events: an
/// attempt is made each time the probe asks for one and is told how it went.
pub open spec fn attempts_made(start: Prober, events: Seq<ProbeEvent>) -> nat
    decreases events.len(),
{
    if events.len() == 0 {
        0
    } else {
        let earlier = events.drop_last();
        let answered = probe_after(start, earlier).stage == ProbeStage::Attempting
            && events.last() != ProbeEvent::Waited;
        attempts_made(start, earlier) + if answered {
            1nat
        } else {
            0nat
        }
    }
}

/// The events of an upstream address that refuses `rounds` attempts in a row:
/// each refusal is followed by the end of the pause.
pub open spec fn refused_rounds(rounds: nat) -> Seq<ProbeEvent>
    decreases rounds,
{
    if rounds == 0 {
        Seq::empty()
    } else {
        refused_rounds((rounds - 1) as nat).push(ProbeEvent::Refused).push(ProbeEvent::Waited)
    }
}

/// A probe keeps its books: at every moment the attempts made and the
/// attempts left add up to the budget, so that no more attempts are made than
/// the policy allows; and while an attempt is due, one is left.
pub proof fn lemma_attempts_within_budget(policy: ProbePolicy, events: Seq<ProbeEvent>)
    ensures
        attempts_made(probe_start(policy), events) + probe_after(
            probe_start(policy),
            events,
        ).attempts_left == policy.max_attempts,
        attempts_made(probe_start(policy), events) <= policy.max_attempts,
        probe_after(probe_start(policy), events).policy == policy,
        probe_after(probe_start(policy), events).stage == ProbeStage::Attempting ==> probe_after(
            probe_start(policy),
            events,
        ).attempts_left >= 1,
    decreases events.len(),
{
    if events.len() > 0 {
        lemma_attempts_within_budget(policy, events.drop_last());
    }
}

/// The listener is bound only after a probe got through: a probe that is
/// ready was accepted by the upstream address at some attempt.
pub proof fn lemma_ready_only_after_accept(policy: ProbePolicy, events: Seq<ProbeEvent>)
    requires
        probe_after(probe_start(policy), events).stage == ProbeStage::Ready,
    ensures
        exists|i: int|
            0 <= i < events.len() && events[i] == ProbeEvent::Accepted && (#[trigger] probe_after(
                probe_start(policy),
                events.take(i),
            )).stage == ProbeStage::Attempting,
    decreases events.len(),
{
    let start = probe_start(policy);
    let earlier = events.drop_last();
    let last = events.len() - 1;
    if probe_after(start, earlier).stage == ProbeStage::Ready {
        lemma_ready_only_after_accept(policy, earlier);
        let i = choose|i: int|
            0 <= i < earlier.len() && earlier[i] == ProbeEvent::Accepted && (#[trigger] probe_after(
                start,
                earlier.take(i),
            )).stage == ProbeStage::Attempting;
        assert(earlier.take(i) =~= events.take(i));
    } else {
        assert(events.take(last) =~= earlier);
        assert(events[last] == ProbeEvent::Accepted);
    }
}

/// Against an upstream address that refuses every attempt, a probe has made
/// one attempt per round and is trying again while rounds are left; after as
/// many rounds as the policy allows attempts it has timed out and asks its
/// caller to give up with `StartupTimeout`.
pub proof fn lemma_refused_rounds_use_up_budget(policy: ProbePolicy, rounds: nat)
    requires
        rounds <= policy.max_attempts,
    ensures
        probe_after(probe_start(policy), refused_rounds(rounds)) == (Prober {
            policy,
            stage: if rounds == policy.max_attempts {
                ProbeStage::TimedOut
            } else {
                ProbeStage::Attempting
            },
            attempts_left: (policy.max_attempts - rounds) as u32,
        }),
        attempts_made(probe_start(policy), refused_rounds(rounds)) == rounds,
        rounds == policy.max_attempts ==> probe_action(
            probe_after(probe_start(policy), refused_rounds(rounds)),
        ) == ProbeAction::GiveUp(ProxyError::StartupTimeout),
    decreases rounds,
{
    if rounds > 0 {
        let start = probe_start(policy);
        lemma_refused_rounds_use_up_budget(policy, (rounds - 1) as nat);
        let earlier = refused_rounds((rounds - 1) as nat);
        let refused = earlier.push(ProbeEvent::Refused);
        assert(refused.drop_last() =~= earlier);
        let waited = refused.push(ProbeEvent::Waited);
        assert(waited.drop_last() =~= refused);
        assert(attempts_made(start, waited) == attempts_made(start, refused));
    }
}

/// A probe that is never accepted is never ready: whatever else happens, the
/// listener is not bound.
pub proof fn lemma_never_accepted_never_ready(policy: ProbePolicy, events: Seq<ProbeEvent>)
    requires
        forall|i: int| 0 <= i < events.len() ==> events[i] != ProbeEvent::Accepted,
    ensures
        probe_after(probe_start(policy), events).stage != ProbeStage::Ready,
{
    if probe_after(probe_start(policy), events).stage == ProbeStage::Ready {
        lemma_ready_only_after_accept(policy, events);
    }
}

} // verus!
