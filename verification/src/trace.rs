//! Sessions over whole sequences of events: what must have happened before a
//! session relays, that a session which ended stays ended, and that sessions
//! run side by side do not touch each other.

use vstd::prelude::*;
use crate::destination::Target;
use crate::error::ProxyError;
use crate::handshake::{advance_of, demand_of, HandshakeModel, Signal};
use crate::session::{
    action_of, fresh_session, session_advance, ActionModel, SessionModel, SessionSignal,
};
use crate::stream::{handshake_of, lemma_machine_reads_grammar, run_of};
use crate::wire::method_reply_bytes;

verus! {

/// The handshake that `start` has become after the events, in their order.
pub open spec fn handshake_after(start: HandshakeModel, events: Seq<Signal>) -> HandshakeModel
    decreases events.len(),
{
    if events.len() == 0 {
        start
    } else {
        advance_of(handshake_after(start, events.drop_last()), events.last())
    }
}

/// The session that `start` has become after the events, in their order.
pub open spec fn session_after(start: SessionModel, events: Seq<SessionSignal>) -> SessionModel
    decreases events.len(),
{
    if events.len() == 0 {
        start
    } else {
        session_advance(session_after(start, events.drop_last()), events.last())
    }
}

/// Whether every one of the events came from the client's connection.
pub open spec fn all_from_client(events: Seq<SessionSignal>) -> bool {
    forall|i: int| 0 <= i < events.len() ==> (#[trigger] events[i]) is Client
}

/// What the client's connection did in a session event; for an event of
/// another kind, a failure.
pub open spec fn client_part(event: SessionSignal) -> Signal {
    match event {
        SessionSignal::Client(signal) => signal,
        _ => Signal::Failed,
    }
}

/// What the client's connection did in each of the events.
pub open spec fn client_parts(events: Seq<SessionSignal>) -> Seq<Signal> {
    Seq::new(events.len(), |i: int| client_part(events[i]))
}

/// All the bytes that the events brought from the client, in their order.
pub open spec fn received_bytes(events: Seq<Signal>) -> Seq<u8>
    decreases events.len(),
{
    if events.len() == 0 {
        Seq::empty()
    } else {
        received_bytes(events.drop_last()) + bytes_of(events.last())
    }
}

/// The bytes that one event brought from the client.
pub open spec fn bytes_of(event: Signal) -> Seq<u8> {
    match event {
        Signal::Received(bytes) => bytes,
        _ => Seq::empty(),
    }
}

/// What a handshake that is not over has written so far.
spec fn replied_by(h: HandshakeModel) -> Seq<u8> {
    match h {
        HandshakeModel::GreetingHeader
        | HandshakeModel::MethodList(_)
        | HandshakeModel::MethodReply => Seq::empty(),
        _ => method_reply_bytes(),
    }
}

/// Whether the machine, at `h` with `at` bytes of `input` read and `replied`
/// written, comes to what the grammar says of `input`.
#[verifier::opaque]
spec fn settles(h: HandshakeModel, input: Seq<u8>, at: int, replied: Seq<u8>) -> bool {
    run_of(h, input, at, replied) == handshake_of(input)
}

/// Whether the grammar finds `target` in `input`.
#[verifier::opaque]
spec fn finds(input: Seq<u8>, target: Target) -> bool {
    handshake_of(input).result == Ok::<Target, ProxyError>(target)
}

/// Whether a handshake at `h` agrees with the grammar on the bytes it has
/// received: while it is under way, it will come to what the grammar says of
/// those bytes and whatever follows them; once it is parsed, the grammar finds
/// the same destination in them.
spec fn on_track(h: HandshakeModel, bytes: Seq<u8>) -> bool {
    if h is Error {
        true
    } else if h is Parsed {
        forall|rest: Seq<u8>| #[trigger] finds(bytes + rest, h->Parsed_0)
    } else {
        forall|rest: Seq<u8>| #[trigger]
            settles(h, bytes + rest, bytes.len() as int, replied_by(h))
    }
}

/// One read from the stream keeps the machine in agreement with the grammar.
proof fn lemma_read_settles(h: HandshakeModel, input: Seq<u8>, at: int, replied: Seq<u8>)
    requires
        demand_of(h) is Read,
        0 <= at,
        at + demand_of(h)->Read_0 <= input.len(),
        settles(h, input, at, replied),
    ensures
        ({
            let count = demand_of(h)->Read_0;
            let next = advance_of(h, Signal::Received(input.subrange(at, at + count)));
            match next {
                HandshakeModel::Error(_) => true,
                HandshakeModel::Parsed(target) => finds(input, target),
                _ => settles(next, input, at + count, replied),
            }
        }),
{
    reveal(settles);
    reveal(finds);
}

/// The write of the method reply keeps the machine in agreement with the
/// grammar.
proof fn lemma_write_settles(input: Seq<u8>, at: int, replied: Seq<u8>)
    requires
        settles(HandshakeModel::MethodReply, input, at, replied),
    ensures
        settles(HandshakeModel::RequestHeader, input, at, replied + method_reply_bytes()),
{
    reveal(settles);
}

/// A new handshake agrees with the grammar on no bytes at all.
proof fn lemma_on_track_at_start()
    ensures
        on_track(HandshakeModel::GreetingHeader, Seq::empty()),
{
    let empty = Seq::<u8>::empty();
    assert forall|rest: Seq<u8>| #[trigger]
        settles(HandshakeModel::GreetingHeader, empty + rest, 0, empty) by {
        reveal(settles);
        lemma_machine_reads_grammar(empty + rest);
    }
}

/// An event that carries a handshake on answers its demand: the write by
/// `Sent`, a read by as many bytes as were asked for.
proof fn lemma_progress_answers_demand(h: HandshakeModel, event: Signal)
    requires
        !(demand_of(h) is Stop),
        !(advance_of(h, event) is Error),
    ensures
        demand_of(h) is Write ==> event is Sent && h is MethodReply,
        demand_of(h) is Read ==> event is Received && bytes_of(event).len() == demand_of(
            h,
        )->Read_0,
{
}

/// A handshake that agrees with the grammar on `bytes` and then reads `more`
/// agrees with it on both together, whatever follows.
proof fn lemma_read_keeps_track(
    h: HandshakeModel,
    bytes: Seq<u8>,
    more: Seq<u8>,
    rest: Seq<u8>,
)
    requires
        on_track(h, bytes),
        demand_of(h) is Read,
        more.len() == demand_of(h)->Read_0,
    ensures
        ({
            let next = advance_of(h, Signal::Received(more));
            let longer = bytes + more;
            match next {
                HandshakeModel::Error(_) => true,
                HandshakeModel::Parsed(target) => finds(longer + rest, target),
                _ => settles(next, longer + rest, longer.len() as int, replied_by(next)),
            }
        }),
{
    let input = bytes + more + rest;
    assert(input =~= bytes + (more + rest));
    assert(input.subrange(bytes.len() as int, (bytes.len() + more.len()) as int) =~= more);
    lemma_read_settles(h, input, bytes.len() as int, replied_by(h));
}

/// One event keeps a handshake in agreement with the grammar.
proof fn lemma_on_track_step(h: HandshakeModel, bytes: Seq<u8>, event: Signal)
    requires
        on_track(h, bytes),
    ensures
        on_track(advance_of(h, event), bytes + bytes_of(event)),
{
    let next = advance_of(h, event);
    let more = bytes_of(event);
    let longer = bytes + more;
    if next is Error {
    } else if h is Parsed {
        assert forall|rest: Seq<u8>| #[trigger] finds(longer + rest, h->Parsed_0) by {
            assert(longer + rest =~= bytes + (more + rest));
        }
    } else {
        lemma_progress_answers_demand(h, event);
        if demand_of(h) is Write {
            assert forall|rest: Seq<u8>| #[trigger]
                settles(next, longer + rest, longer.len() as int, replied_by(next)) by {
                lemma_write_settles(bytes + rest, bytes.len() as int, replied_by(h));
            }
        } else if next is Parsed {
            assert forall|rest: Seq<u8>| #[trigger] finds(longer + rest, next->Parsed_0) by {
                lemma_read_keeps_track(h, bytes, more, rest);
            }
        } else {
            assert forall|rest: Seq<u8>| #[trigger]
                settles(next, longer + rest, longer.len() as int, replied_by(next)) by {
                lemma_read_keeps_track(h, bytes, more, rest);
            }
        }
    }
}

/// A handshake agrees with the grammar after any events.
proof fn lemma_on_track_throughout(events: Seq<Signal>)
    ensures
        on_track(handshake_after(HandshakeModel::GreetingHeader, events), received_bytes(events)),
    decreases events.len(),
{
    if events.len() == 0 {
        lemma_on_track_at_start();
    } else {
        lemma_on_track_throughout(events.drop_last());
        lemma_on_track_step(
            handshake_after(HandshakeModel::GreetingHeader, events.drop_last()),
            received_bytes(events.drop_last()),
            events.last(),
        );
    }
}

/// The destination that a handshake parsed is the one that the client's bytes
/// spell: whatever the events were that brought a new handshake to `Parsed`,
/// the grammar finds the same destination in the bytes that they delivered.
pub proof fn lemma_parsed_events_spell_destination(events: Seq<Signal>, target: Target)
    requires
        handshake_after(HandshakeModel::GreetingHeader, events) == HandshakeModel::Parsed(target),
    ensures
        handshake_of(received_bytes(events)).result == Ok::<Target, ProxyError>(target),
{
    lemma_on_track_throughout(events);
    let bytes = received_bytes(events);
    let h = handshake_after(HandshakeModel::GreetingHeader, events);
    assert(h->Parsed_0 == target);
    let nothing = Seq::<u8>::empty();
    assert(finds(bytes + nothing, target));
    reveal(finds);
}

/// While a new session is in its handshake, and when it has just come to know
/// its destination, nothing but the client's connection has been heard, and
/// the session stands where the handshake machine stands after those events.
pub proof fn lemma_handshake_phase(events: Seq<SessionSignal>)
    ensures
        match session_after(fresh_session(), events) {
            SessionModel::Handshaking(h) => {
                &&& all_from_client(events)
                &&& handshake_after(HandshakeModel::GreetingHeader, client_parts(events)) == h
                &&& !(demand_of(h) is Stop)
            },
            SessionModel::Connecting(target) => {
                &&& all_from_client(events)
                &&& handshake_after(HandshakeModel::GreetingHeader, client_parts(events))
                    == HandshakeModel::Parsed(target)
            },
            _ => true,
        },
    decreases events.len(),
{
    if events.len() > 0 {
        let before = events.drop_last();
        lemma_handshake_phase(before);
        let now = session_after(fresh_session(), events);
        if now is Handshaking || now is Connecting {
            assert forall|i: int| 0 <= i < events.len() implies (#[trigger] events[i]) is Client by {
                if i < before.len() {
                    assert(before[i] == events[i]);
                }
            }
            assert(client_parts(events).drop_last() =~= client_parts(before));
        }
    }
}

/// A session relays only after one destination and one upstream connection.
///
/// Whenever a new session has come to relay, its last two events were the
/// upstream connection being established and the success reply going out;
/// everything before them came from the client's connection, so that no other
/// upstream connection was made; and the destination that the session relays
/// to is the one that the handshake parsed from those events, which is the one
/// that the grammar finds in the bytes they delivered.
pub proof fn lemma_relay_needs_destination_and_upstream(
    events: Seq<SessionSignal>,
    target: Target,
)
    requires
        session_after(fresh_session(), events) == SessionModel::Relaying(target),
    ensures
        events.len() >= 2,
        events[events.len() - 1] == SessionSignal::Client(Signal::Sent),
        events[events.len() - 2] == SessionSignal::Connected,
        all_from_client(events.take(events.len() - 2)),
        forall|i: int| 0 <= i < events.len() && events[i] == SessionSignal::Connected ==> i
            == events.len() - 2,
        handshake_after(
            HandshakeModel::GreetingHeader,
            client_parts(events.take(events.len() - 2)),
        ) == HandshakeModel::Parsed(target),
        handshake_of(received_bytes(client_parts(events.take(events.len() - 2)))).result == Ok::<
            Target,
            ProxyError,
        >(target),
{
    let replying = events.drop_last();
    assert(session_after(fresh_session(), replying) == SessionModel::Replying(target));
    let connecting = replying.drop_last();
    assert(connecting =~= events.take(events.len() - 2));
    lemma_handshake_phase(connecting);
    lemma_parsed_events_spell_destination(client_parts(connecting), target);
    assert forall|i: int| 0 <= i < events.len() && events[i] == SessionSignal::Connected implies i
        == events.len() - 2 by {
        if i < events.len() - 2 {
            assert(connecting[i] is Client);
        }
    }
}

/// A session that has ended stays as it ended: whatever events still arrive,
/// a failed session remains failed for the same reason, a closed one remains
/// closed, and all either asks for is to close the sockets. In particular a
/// session that failed never relays.
pub proof fn lemma_ended_session_stays_ended(start: SessionModel, events: Seq<SessionSignal>)
    requires
        start is Failed || start is Closed,
    ensures
        session_after(start, events) == start,
        action_of(start) is Close,
        start matches SessionModel::Failed(kind) ==> action_of(start) == ActionModel::Close(
            Err(kind),
        ),
    decreases events.len(),
{
    if events.len() > 0 {
        lemma_ended_session_stays_ended(start, events.drop_last());
    }
}

/// A handshake that is over stays as it is and asks for nothing more.
pub proof fn lemma_finished_handshake_stays(start: HandshakeModel, events: Seq<Signal>)
    requires
        start is Parsed || start is Error,
    ensures
        handshake_after(start, events) == start,
        demand_of(start) is Stop,
    decreases events.len(),
{
    if events.len() > 0 {
        lemma_finished_handshake_stays(start, events.drop_last());
    }
}

/// A refused handshake gives the session up with the handshake's own error.
pub proof fn lemma_refused_handshake_fails_session(
    h: HandshakeModel,
    signal: Signal,
    kind: ProxyError,
)
    requires
        advance_of(h, signal) == HandshakeModel::Error(kind),
    ensures
        session_advance(SessionModel::Handshaking(h), SessionSignal::Client(signal))
            == SessionModel::Failed(kind),
        action_of(SessionModel::Failed(kind)) == ActionModel::Close(Err(kind)),
{
}

/// The events that are addressed to the session called `id`, in their order.
pub open spec fn events_for(events: Seq<(int, SessionSignal)>, id: int) -> Seq<SessionSignal>
    decreases events.len(),
{
    if events.len() == 0 {
        Seq::empty()
    } else if events.last().0 == id {
        events_for(events.drop_last(), id).push(events.last().1)
    } else {
        events_for(events.drop_last(), id)
    }
}

/// Many sessions side by side, each under a name of its own, after a
/// sequence of events of which each is addressed to one session. An event for
/// a name that no session has is dropped.
pub open spec fn sessions_after(
    start: Map<int, SessionModel>,
    events: Seq<(int, SessionSignal)>,
) -> Map<int, SessionModel>
    decreases events.len(),
{
    if events.len() == 0 {
        start
    } else {
        let before = sessions_after(start, events.drop_last());
        let (id, event) = events.last();
        if before.dom().contains(id) {
            before.insert(id, session_advance(before[id], event))
        } else {
            before
        }
    }
}

/// Sessions do not interfere. However the events of several sessions are
/// interleaved, each session ends up where its own events alone would have
/// brought it: what another session received, and whether it failed or
/// closed, makes no difference to it.
pub proof fn lemma_sessions_do_not_interfere(
    start: Map<int, SessionModel>,
    events: Seq<(int, SessionSignal)>,
    id: int,
)
    requires
        start.dom().contains(id),
    ensures
        sessions_after(start, events).dom() == start.dom(),
        sessions_after(start, events)[id] == session_after(start[id], events_for(events, id)),
    decreases events.len(),
{
    if events.len() > 0 {
        let earlier = events.drop_last();
        lemma_sessions_do_not_interfere(start, earlier, id);
        let (to, event) = events.last();
        if to == id {
            let mine = events_for(earlier, id);
            assert(mine.push(event).drop_last() =~= mine);
        }
    }
}

} // verus!
