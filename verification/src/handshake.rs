//! The server side of the SOCKS5 handshake as a state machine.
//!
//! The machine never touches a socket. It says what it needs next from the
//! client's connection (`demand`), and is told what came of it (`advance`).
//! One greeting and one request are read; there is no second try.

use vstd::prelude::*;
use crate::decode::{
    domain_host_spec, greeting_header_spec, ipv4_host_spec, port_spec, read_domain_host,
    read_greeting_header, read_ipv4_host, read_port, read_request_header, request_header_spec,
};
use crate::destination::{Destination, Target};
use crate::error::ProxyError;
use crate::wire::{
    method_reply, method_reply_bytes, AddressType, GREETING_HEADER_LEN, IPV4_LEN, PORT_LEN,
    REQUEST_HEADER_LEN,
};

verus! {

/// What the client's connection did in answer to the last demand.
#[derive(Debug)]
pub enum ClientEvent {
    /// The read that was asked for, with its bytes.
    Received(Vec<u8>),
    /// The write that was asked for went out whole.
    Sent,
    /// The connection ended or failed before the demand was met.
    Failed,
}

/// A `ClientEvent` with its bytes as a sequence.
pub enum Signal {
    Received(Seq<u8>),
    Sent,
    Failed,
}

impl View for ClientEvent {
    type V = Signal;

    open spec fn view(&self) -> Signal {
        match self {
            ClientEvent::Received(bytes) => Signal::Received(bytes@),
            ClientEvent::Sent => Signal::Sent,
            ClientEvent::Failed => Signal::Failed,
        }
    }
}

/// What the handshake needs next from the client's connection.
#[derive(Debug, PartialEq, Eq)]
pub enum Demand {
    /// Read exactly this many bytes.
    Read(usize),
    /// Write all of these bytes.
    Write(Vec<u8>),
    /// Nothing: the handshake is over.
    Stop,
}

/// A `Demand` with its bytes as a sequence.
pub enum DemandModel {
    Read(nat),
    Write(Seq<u8>),
    Stop,
}

impl View for Demand {
    type V = DemandModel;

    open spec fn view(&self) -> DemandModel {
        match self {
            Demand::Read(count) => DemandModel::Read(*count as nat),
            Demand::Write(bytes) => DemandModel::Write(bytes@),
            Demand::Stop => DemandModel::Stop,
        }
    }
}

/// The four states of the handshake.
#[derive(Clone, Copy, Debug, PartialEq, Eq, Structural)]
pub enum HandshakeState {
    /// The greeting is being read or answered.
    AwaitGreeting,
    /// The request is being read.
    AwaitRequest,
    /// The request named a destination.
    Parsed,
    /// The handshake was refused; nothing more is read or written.
    Error,
}

/// A handshake in progress: its state, and within it the read or write that is
/// due next.
#[derive(Debug)]
pub enum Handshake {
    /// Due: the greeting's version and method count.
    GreetingHeader,
    /// Due: the greeting's method bytes, as many as announced.
    MethodList(u8),
    /// Due: the reply that selects "no authentication required".
    MethodReply,
    /// Due: the request's version, command, reserved byte and address type.
    RequestHeader,
    /// Due: the four bytes of an IPv4 address.
    Ipv4Address,
    /// Due: the length byte of a domain name.
    DomainLength,
    /// Due: the bytes of a domain name, as many as announced.
    DomainName(u8),
    /// Due: the two bytes of the port; the host is known.
    TargetPort(String),
    /// Done: the destination that the client asked for.
    Parsed(Destination),
    /// Done: why the handshake was refused.
    Error(ProxyError),
}

/// A `Handshake` with its text as sequences of characters.
pub enum HandshakeModel {
    GreetingHeader,
    MethodList(u8),
    MethodReply,
    RequestHeader,
    Ipv4Address,
    DomainLength,
    DomainName(u8),
    TargetPort(Seq<char>),
    Parsed(Target),
    Error(ProxyError),
}

impl View for Handshake {
    type V = HandshakeModel;

    open spec fn view(&self) -> HandshakeModel {
        match self {
            Handshake::GreetingHeader => HandshakeModel::GreetingHeader,
            Handshake::MethodList(count) => HandshakeModel::MethodList(*count),
            Handshake::MethodReply => HandshakeModel::MethodReply,
            Handshake::RequestHeader => HandshakeModel::RequestHeader,
            Handshake::Ipv4Address => HandshakeModel::Ipv4Address,
            Handshake::DomainLength => HandshakeModel::DomainLength,
            Handshake::DomainName(len) => HandshakeModel::DomainName(*len),
            Handshake::TargetPort(host) => HandshakeModel::TargetPort(host@),
            Handshake::Parsed(dest) => HandshakeModel::Parsed(dest@),
            Handshake::Error(kind) => HandshakeModel::Error(*kind),
        }
    }
}

/// The state that a handshake is in.
pub open spec fn state_of(h: HandshakeModel) -> HandshakeState {
    match h {
        HandshakeModel::GreetingHeader
        | HandshakeModel::MethodList(_)
        | HandshakeModel::MethodReply => HandshakeState::AwaitGreeting,
        HandshakeModel::RequestHeader
        | HandshakeModel::Ipv4Address
        | HandshakeModel::DomainLength
        | HandshakeModel::DomainName(_)
        | HandshakeModel::TargetPort(_) => HandshakeState::AwaitRequest,
        HandshakeModel::Parsed(_) => HandshakeState::Parsed,
        HandshakeModel::Error(_) => HandshakeState::Error,
    }
}

/// What a handshake needs next.
pub open spec fn demand_of(h: HandshakeModel) -> DemandModel {
    match h {
        HandshakeModel::GreetingHeader => DemandModel::Read(GREETING_HEADER_LEN as nat),
        HandshakeModel::MethodList(count) => DemandModel::Read(count as nat),
        HandshakeModel::MethodReply => DemandModel::Write(method_reply_bytes()),
        HandshakeModel::RequestHeader => DemandModel::Read(REQUEST_HEADER_LEN as nat),
        HandshakeModel::Ipv4Address => DemandModel::Read(IPV4_LEN as nat),
        HandshakeModel::DomainLength => DemandModel::Read(1),
        HandshakeModel::DomainName(len) => DemandModel::Read(len as nat),
        HandshakeModel::TargetPort(_) => DemandModel::Read(PORT_LEN as nat),
        HandshakeModel::Parsed(_) | HandshakeModel::Error(_) => DemandModel::Stop,
    }
}

/// The handshake after one event.
///
/// Each demand has one answer that carries the handshake on: a read is
/// answered by `Received` with exactly the bytes asked for, the write by
/// `Sent`. Any other event at that point, and bytes that the protocol refuses,
/// end the handshake in `Error`. `Parsed` and `Error` are final.
pub open spec fn advance_of(h: HandshakeModel, event: Signal) -> HandshakeModel {
    match h {
        HandshakeModel::GreetingHeader => match event {
            Signal::Received(bytes) => match greeting_header_spec(bytes) {
                Ok(count) => HandshakeModel::MethodList(count),
                Err(kind) => HandshakeModel::Error(kind),
            },
            _ => HandshakeModel::Error(ProxyError::MalformedRequest),
        },
        HandshakeModel::MethodList(count) => match event {
            Signal::Received(bytes) if bytes.len() == count => HandshakeModel::MethodReply,
            _ => HandshakeModel::Error(ProxyError::MalformedRequest),
        },
        HandshakeModel::MethodReply => match event {
            Signal::Sent => HandshakeModel::RequestHeader,
            _ => HandshakeModel::Error(ProxyError::MalformedRequest),
        },
        HandshakeModel::RequestHeader => match event {
            Signal::Received(bytes) => match request_header_spec(bytes) {
                Ok(AddressType::Ipv4) => HandshakeModel::Ipv4Address,
                Ok(AddressType::DomainName) => HandshakeModel::DomainLength,
                Ok(AddressType::Unsupported) => HandshakeModel::Error(
                    ProxyError::UnsupportedAddressType,
                ),
                Err(kind) => HandshakeModel::Error(kind),
            },
            _ => HandshakeModel::Error(ProxyError::MalformedRequest),
        },
        HandshakeModel::Ipv4Address => match event {
            Signal::Received(bytes) => match ipv4_host_spec(bytes) {
                Ok(host) => HandshakeModel::TargetPort(host),
                Err(kind) => HandshakeModel::Error(kind),
            },
            _ => HandshakeModel::Error(ProxyError::MalformedRequest),
        },
        HandshakeModel::DomainLength => match event {
            Signal::Received(bytes) if bytes.len() == 1 => HandshakeModel::DomainName(bytes[0]),
            _ => HandshakeModel::Error(ProxyError::MalformedRequest),
        },
        HandshakeModel::DomainName(len) => match event {
            Signal::Received(bytes) if bytes.len() == len => match domain_host_spec(bytes) {
                Ok(host) => HandshakeModel::TargetPort(host),
                Err(kind) => HandshakeModel::Error(kind),
            },
            _ => HandshakeModel::Error(ProxyError::MalformedRequest),
        },
        HandshakeModel::TargetPort(host) => match event {
            Signal::Received(bytes) => match port_spec(bytes) {
                Ok(port) => HandshakeModel::Parsed(Target { host, port }),
                Err(kind) => HandshakeModel::Error(kind),
            },
            _ => HandshakeModel::Error(ProxyError::MalformedRequest),
        },
        HandshakeModel::Parsed(target) => HandshakeModel::Parsed(target),
        HandshakeModel::Error(kind) => HandshakeModel::Error(kind),
    }
}

/// The most events that a handshake can still take before it is over.
pub open spec fn steps_left(h: HandshakeModel) -> nat {
    match h {
        HandshakeModel::GreetingHeader => 7,
        HandshakeModel::MethodList(_) => 6,
        HandshakeModel::MethodReply => 5,
        HandshakeModel::RequestHeader => 4,
        HandshakeModel::DomainLength => 3,
        HandshakeModel::Ipv4Address | HandshakeModel::DomainName(_) => 2,
        HandshakeModel::TargetPort(_) => 1,
        HandshakeModel::Parsed(_) | HandshakeModel::Error(_) => 0,
    }
}

impl Handshake {
    /// A handshake of which nothing has been read yet.
    pub fn new() -> (h: Handshake)
        ensures
            h@ == HandshakeModel::GreetingHeader,
    {
        Handshake::GreetingHeader
    }

    /// The state that the handshake is in.
    pub fn state(&self) -> (state: HandshakeState)
        ensures
            state == state_of(self@),
    {
        match self {
            Handshake::GreetingHeader | Handshake::MethodList(_) | Handshake::MethodReply => {
                HandshakeState::AwaitGreeting
            },
            Handshake::RequestHeader
            | Handshake::Ipv4Address
            | Handshake::DomainLength
            | Handshake::DomainName(_)
            | Handshake::TargetPort(_) => HandshakeState::AwaitRequest,
            Handshake::Parsed(_) => HandshakeState::Parsed,
            Handshake::Error(_) => HandshakeState::Error,
        }
    }

    /// What the handshake needs next from the client's connection.
    pub fn demand(&self) -> (demand: Demand)
        ensures
            demand@ == demand_of(self@),
    {
        match self {
            Handshake::GreetingHeader => Demand::Read(GREETING_HEADER_LEN),
            Handshake::MethodList(count) => Demand::Read(*count as usize),
            Handshake::MethodReply => Demand::Write(method_reply()),
            Handshake::RequestHeader => Demand::Read(REQUEST_HEADER_LEN),
            Handshake::Ipv4Address => Demand::Read(IPV4_LEN),
            Handshake::DomainLength => Demand::Read(1),
            Handshake::DomainName(len) => Demand::Read(*len as usize),
            Handshake::TargetPort(_) => Demand::Read(PORT_LEN),
            Handshake::Parsed(_) | Handshake::Error(_) => Demand::Stop,
        }
    }

    /// Takes one event and returns the handshake after it.
    pub fn advance(self, event: ClientEvent) -> (next: Handshake)
        ensures
            next@ == advance_of(self@, event@),
    {
        match self {
            Handshake::Parsed(dest) => Handshake::Parsed(dest),
            Handshake::Error(kind) => Handshake::Error(kind),
            Handshake::MethodReply => match event {
                ClientEvent::Sent => Handshake::RequestHeader,
                _ => Handshake::Error(ProxyError::MalformedRequest),
            },
            waiting => match event {
                ClientEvent::Received(bytes) => waiting.take(bytes),
                _ => Handshake::Error(ProxyError::MalformedRequest),
            },
        }
    }

    /// The handshake after the bytes of the read that it was waiting for.
    fn take(self, bytes: Vec<u8>) -> (next: Handshake)
        requires
            demand_of(self@) is Read,
        ensures
            next@ == advance_of(self@, Signal::Received(bytes@)),
    {
        match self {
            Handshake::GreetingHeader => match read_greeting_header(bytes.as_slice()) {
                Ok(count) => Handshake::MethodList(count),
                Err(kind) => Handshake::Error(kind),
            },
            Handshake::MethodList(count) => {
                if bytes.len() == count as usize {
                    Handshake::MethodReply
                } else {
                    Handshake::Error(ProxyError::MalformedRequest)
                }
            },
            Handshake::RequestHeader => match read_request_header(bytes.as_slice()) {
                Ok(AddressType::Ipv4) => Handshake::Ipv4Address,
                Ok(AddressType::DomainName) => Handshake::DomainLength,
                Ok(AddressType::Unsupported) => Handshake::Error(
                    ProxyError::UnsupportedAddressType,
                ),
                Err(kind) => Handshake::Error(kind),
            },
            Handshake::Ipv4Address => match read_ipv4_host(bytes.as_slice()) {
                Ok(host) => Handshake::TargetPort(host),
                Err(kind) => Handshake::Error(kind),
            },
            Handshake::DomainLength => {
                if bytes.len() == 1 {
                    Handshake::DomainName(bytes[0])
                } else {
                    Handshake::Error(ProxyError::MalformedRequest)
                }
            },
            Handshake::DomainName(len) => {
                if bytes.len() == len as usize {
                    match read_domain_host(bytes) {
                        Ok(host) => Handshake::TargetPort(host),
                        Err(kind) => Handshake::Error(kind),
                    }
                } else {
                    Handshake::Error(ProxyError::MalformedRequest)
                }
            },
            Handshake::TargetPort(host) => match read_port(bytes.as_slice()) {
                Ok(port) => Handshake::Parsed(Destination::new(host, port)),
                Err(kind) => Handshake::Error(kind),
            },
            other => other,
        }
    }
}

} // verus!
