//! One client connection from greeting to close, as a state machine.
//!
//! A session runs the handshake, has the upstream proxy connect to the
//! destination, tells the client that this succeeded, and relays until one
//! direction ends. The machine decides; its caller owns the two sockets,
//! performs each `Action` and reports the `SessionEvent` that came of it.
//! A session holds nothing that another session can see.

use vstd::prelude::*;
use crate::destination::{Destination, Target};
use crate::error::ProxyError;
use crate::handshake::{
    advance_of, demand_of, ClientEvent, Demand, DemandModel, Handshake, HandshakeModel, Signal,
};
use crate::wire::{success_reply, success_reply_bytes};

verus! {

/// What happened to the action that a session asked for.
#[derive(Debug)]
pub enum SessionEvent {
    /// The client's connection answered a read or a write.
    Client(ClientEvent),
    /// The upstream proxy negotiated a connection to the destination.
    Connected,
    /// The upstream proxy could not be reached, or refused.
    ConnectFailed,
    /// One direction of the relay reached the end of its stream.
    RelayEnded,
    /// One direction of the relay failed.
    RelayFailed,
}

/// A `SessionEvent` with its bytes as a sequence.
pub enum SessionSignal {
    Client(Signal),
    Connected,
    ConnectFailed,
    RelayEnded,
    RelayFailed,
}

impl View for SessionEvent {
    type V = SessionSignal;

    open spec fn view(&self) -> SessionSignal {
        match self {
            SessionEvent::Client(event) => SessionSignal::Client(event@),
            SessionEvent::Connected => SessionSignal::Connected,
            SessionEvent::ConnectFailed => SessionSignal::ConnectFailed,
            SessionEvent::RelayEnded => SessionSignal::RelayEnded,
            SessionEvent::RelayFailed => SessionSignal::RelayFailed,
        }
    }
}

/// What a session asks its caller to do next.
#[derive(Debug, PartialEq, Eq)]
pub enum Action {
    /// Read exactly this many bytes from the client.
    Read(usize),
    /// Write all of these bytes to the client.
    Write(Vec<u8>),
    /// Connect to the destination through the upstream proxy.
    Connect(Destination),
    /// Copy bytes both ways until one direction ends or fails, then stop both.
    Relay,
    /// Close both sockets; the session ended well, or for the given reason.
    Close(Result<(), ProxyError>),
}

/// An `Action` with its bytes and text as sequences.
pub enum ActionModel {
    Read(nat),
    Write(Seq<u8>),
    Connect(Target),
    Relay,
    Close(Result<(), ProxyError>),
}

impl View for Action {
    type V = ActionModel;

    open spec fn view(&self) -> ActionModel {
        match self {
            Action::Read(count) => ActionModel::Read(*count as nat),
            Action::Write(bytes) => ActionModel::Write(bytes@),
            Action::Connect(dest) => ActionModel::Connect(dest@),
            Action::Relay => ActionModel::Relay,
            Action::Close(outcome) => ActionModel::Close(*outcome),
        }
    }
}

/// The life of one client connection.
#[derive(Debug)]
pub enum Session {
    /// The handshake is under way.
    Handshaking(Handshake),
    /// The destination is known; the upstream connection is being made.
    Connecting(Destination),
    /// The upstream connection stands; the client is being told so.
    Replying(Destination),
    /// Bytes are moving between the client and the upstream connection.
    Relaying(Destination),
    /// The relay ended with the end of a stream.
    Closed(Destination),
    /// The session was given up.
    Failed(ProxyError),
}

/// A `Session` with its text as sequences of characters.
pub enum SessionModel {
    Handshaking(HandshakeModel),
    Connecting(Target),
    Replying(Target),
    Relaying(Target),
    Closed(Target),
    Failed(ProxyError),
}

impl View for Session {
    type V = SessionModel;

    open spec fn view(&self) -> SessionModel {
        match self {
            Session::Handshaking(h) => SessionModel::Handshaking(h@),
            Session::Connecting(dest) => SessionModel::Connecting(dest@),
            Session::Replying(dest) => SessionModel::Replying(dest@),
            Session::Relaying(dest) => SessionModel::Relaying(dest@),
            Session::Closed(dest) => SessionModel::Closed(dest@),
            Session::Failed(kind) => SessionModel::Failed(*kind),
        }
    }
}

/// The session that a handshake leaves behind after an event: on to the
/// upstream connection once it is parsed, given up once it is refused.
pub open spec fn settle(h: HandshakeModel) -> SessionModel {
    match h {
        HandshakeModel::Parsed(target) => SessionModel::Connecting(target),
        HandshakeModel::Error(kind) => SessionModel::Failed(kind),
        _ => SessionModel::Handshaking(h),
    }
}

/// What a session asks for.
pub open spec fn action_of(s: SessionModel) -> ActionModel {
    match s {
        SessionModel::Handshaking(h) => match demand_of(h) {
            DemandModel::Read(count) => ActionModel::Read(count),
            DemandModel::Write(bytes) => ActionModel::Write(bytes),
            DemandModel::Stop => match h {
                HandshakeModel::Error(kind) => ActionModel::Close(Err(kind)),
                _ => ActionModel::Close(Err(ProxyError::MalformedRequest)),
            },
        },
        SessionModel::Connecting(target) => ActionModel::Connect(target),
        SessionModel::Replying(_) => ActionModel::Write(success_reply_bytes()),
        SessionModel::Relaying(_) => ActionModel::Relay,
        SessionModel::Closed(_) => ActionModel::Close(Ok(())),
        SessionModel::Failed(kind) => ActionModel::Close(Err(kind)),
    }
}

/// The session after one event.
///
/// Each action has one event that carries the session on. Any other event is
/// the failure of that action, and the session is given up with the error of
/// the stage it was in: `MalformedRequest` during the handshake, unless the
/// handshake names another; `UpstreamConnectFailed` while connecting;
/// `RelayIOError` from then on. `Closed` and `Failed` are final.
pub open spec fn session_advance(s: SessionModel, event: SessionSignal) -> SessionModel {
    match s {
        SessionModel::Handshaking(h) => match event {
            SessionSignal::Client(signal) => settle(advance_of(h, signal)),
            _ => SessionModel::Failed(ProxyError::MalformedRequest),
        },
        SessionModel::Connecting(target) => match event {
            SessionSignal::Connected => SessionModel::Replying(target),
            _ => SessionModel::Failed(ProxyError::UpstreamConnectFailed),
        },
        SessionModel::Replying(target) => match event {
            SessionSignal::Client(Signal::Sent) => SessionModel::Relaying(target),
            _ => SessionModel::Failed(ProxyError::RelayIOError),
        },
        SessionModel::Relaying(target) => match event {
            SessionSignal::RelayEnded => SessionModel::Closed(target),
            _ => SessionModel::Failed(ProxyError::RelayIOError),
        },
        SessionModel::Closed(target) => SessionModel::Closed(target),
        SessionModel::Failed(kind) => SessionModel::Failed(kind),
    }
}

/// A session of which nothing has happened yet.
pub open spec fn fresh_session() -> SessionModel {
    SessionModel::Handshaking(HandshakeModel::GreetingHeader)
}

impl Session {
    /// A session for a connection that was just accepted.
    pub fn new() -> (s: Session)
        ensures
            s@ == fresh_session(),
    {
        Session::Handshaking(Handshake::new())
    }

    /// What the session asks its caller to do now.
    pub fn action(&self) -> (action: Action)
        ensures
            action@ == action_of(self@),
    {
        match self {
            Session::Handshaking(h) => match h.demand() {
                Demand::Read(count) => Action::Read(count),
                Demand::Write(bytes) => Action::Write(bytes),
                Demand::Stop => match h {
                    Handshake::Error(kind) => Action::Close(Err(*kind)),
                    _ => Action::Close(Err(ProxyError::MalformedRequest)),
                },
            },
            Session::Connecting(dest) => Action::Connect(dest.duplicate()),
            Session::Replying(_) => Action::Write(success_reply()),
            Session::Relaying(_) => Action::Relay,
            Session::Closed(_) => Action::Close(Ok(())),
            Session::Failed(kind) => Action::Close(Err(*kind)),
        }
    }

    /// Takes what came of the last action and returns the session after it.
    pub fn advance(self, event: SessionEvent) -> (next: Session)
        ensures
            next@ == session_advance(self@, event@),
    {
        match self {
            Session::Handshaking(h) => match event {
                SessionEvent::Client(signal) => match h.advance(signal) {
                    Handshake::Parsed(dest) => Session::Connecting(dest),
                    Handshake::Error(kind) => Session::Failed(kind),
                    pending => Session::Handshaking(pending),
                },
                _ => Session::Failed(ProxyError::MalformedRequest),
            },
            Session::Connecting(dest) => match event {
                SessionEvent::Connected => Session::Replying(dest),
                _ => Session::Failed(ProxyError::UpstreamConnectFailed),
            },
            Session::Replying(dest) => match event {
                SessionEvent::Client(ClientEvent::Sent) => Session::Relaying(dest),
                _ => Session::Failed(ProxyError::RelayIOError),
            },
            Session::Relaying(dest) => match event {
                SessionEvent::RelayEnded => Session::Closed(dest),
                _ => Session::Failed(ProxyError::RelayIOError),
            },
            Session::Closed(dest) => Session::Closed(dest),
            Session::Failed(kind) => Session::Failed(kind),
        }
    }
}

} // verus!
