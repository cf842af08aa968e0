//! The handshake as a grammar on the client's byte stream, and the proof that
//! the state machine reads that grammar.

use vstd::prelude::*;
use vstd::pervasive::unreached;
use vstd::slice::{slice_subrange, slice_to_vec};
use vstd::utf8::{
    decode_utf8, decode_utf8_encode_utf8, encode_utf8, is_ascii_chars_encode_utf8, valid_utf8,
};
use crate::destination::{Destination, Target};
use crate::error::ProxyError;
use crate::handshake::{
    advance_of, demand_of, steps_left, ClientEvent, Demand, DemandModel, Handshake,
    HandshakeModel, Signal,
};
use crate::text::{dotted_quad, lemma_dotted_quad_is_short_ascii};
use crate::wire::{
    address_type_of, method_reply_bytes, port_of, AddressType, ATYP_DOMAIN, ATYP_IPV4,
    CMD_CONNECT, GREETING_HEADER_LEN, IPV4_LEN, PORT_LEN, REQUEST_HEADER_LEN, SOCKS_VERSION,
};

verus! {

/// What a handshake came to on a given stream.
pub struct Transcript {
    /// The destination asked for, or why the handshake was refused.
    pub result: Result<Target, ProxyError>,
    /// How many bytes of the stream were read.
    pub consumed: nat,
    /// The bytes written back to the client.
    pub replied: Seq<u8>,
}

/// A `Transcript` in executable form.
#[derive(Debug)]
pub struct HandshakeOutcome {
    /// The destination asked for, or why the handshake was refused.
    pub result: Result<Destination, ProxyError>,
    /// How many bytes of the stream were read.
    pub consumed: usize,
    /// The bytes written back to the client.
    pub replied: Vec<u8>,
}

impl View for HandshakeOutcome {
    type V = Transcript;

    open spec fn view(&self) -> Transcript {
        Transcript {
            result: match self.result {
                Ok(dest) => Ok(dest@),
                Err(kind) => Err(kind),
            },
            consumed: self.consumed as nat,
            replied: self.replied@,
        }
    }
}

/// A handshake refused for `kind` after `consumed` bytes.
pub open spec fn refused(kind: ProxyError, consumed: int, replied: Seq<u8>) -> Transcript {
    Transcript { result: Err(kind), consumed: consumed as nat, replied }
}

/// A handshake whose stream ended inside a read: all of it was read, and the
/// request is malformed.
pub open spec fn cut_short(input: Seq<u8>, replied: Seq<u8>) -> Transcript {
    refused(ProxyError::MalformedRequest, input.len() as int, replied)
}

/// The handshake that a client's stream amounts to.
///
/// The stream starts with the greeting: version 5, a method count, that many
/// method bytes. The greeting is answered, and the request follows.
pub open spec fn handshake_of(input: Seq<u8>) -> Transcript {
    if input.len() < GREETING_HEADER_LEN {
        cut_short(input, Seq::empty())
    } else if input[0] != SOCKS_VERSION {
        refused(ProxyError::UnsupportedVersion, GREETING_HEADER_LEN as int, Seq::empty())
    } else if input.len() < GREETING_HEADER_LEN + input[1] {
        cut_short(input, Seq::empty())
    } else {
        request_of(input, GREETING_HEADER_LEN + input[1])
    }
}

/// The request that starts at `at`, after an accepted greeting: a header of
/// version, command, reserved byte and address type, then the target.
pub open spec fn request_of(input: Seq<u8>, at: int) -> Transcript {
    let replied = method_reply_bytes();
    let target_at = at + REQUEST_HEADER_LEN;
    if input.len() < target_at {
        cut_short(input, replied)
    } else if input[at + 1] != CMD_CONNECT {
        refused(ProxyError::UnsupportedCommand, target_at, replied)
    } else {
        match address_type_of(input[at + 3]) {
            AddressType::Ipv4 => ipv4_target_of(input, target_at),
            AddressType::DomainName => domain_target_of(input, target_at),
            AddressType::Unsupported => refused(
                ProxyError::UnsupportedAddressType,
                target_at,
                replied,
            ),
        }
    }
}

/// The IPv4 target that starts at `at`: four address bytes and the port.
pub open spec fn ipv4_target_of(input: Seq<u8>, at: int) -> Transcript {
    let port_at = at + IPV4_LEN;
    let end = port_at + PORT_LEN;
    if input.len() < end {
        cut_short(input, method_reply_bytes())
    } else {
        Transcript {
            result: Ok(
                Target {
                    host: dotted_quad(input[at], input[at + 1], input[at + 2], input[at + 3]),
                    port: port_of(input[port_at], input[port_at + 1]),
                },
            ),
            consumed: end as nat,
            replied: method_reply_bytes(),
        }
    }
}

/// The domain target that starts at `at`: a length byte, that many bytes of
/// host name, and the port. The name is judged before the port is read.
pub open spec fn domain_target_of(input: Seq<u8>, at: int) -> Transcript {
    let replied = method_reply_bytes();
    if input.len() < at + 1 {
        cut_short(input, replied)
    } else {
        let name_at = at + 1;
        let port_at = name_at + input[at];
        let end = port_at + PORT_LEN;
        if input.len() < port_at {
            cut_short(input, replied)
        } else if !valid_utf8(input.subrange(name_at, port_at)) {
            refused(ProxyError::MalformedRequest, port_at, replied)
        } else if input.len() < end {
            cut_short(input, replied)
        } else {
            Transcript {
                result: Ok(
                    Target {
                        host: decode_utf8(input.subrange(name_at, port_at)),
                        port: port_of(input[port_at], input[port_at + 1]),
                    },
                ),
                consumed: end as nat,
                replied,
            }
        }
    }
}

/// What the state machine comes to when it is at `h`, `at` bytes of `input`
/// are read and `replied` is written, and each of its demands is then met
/// from the stream: a read takes the next bytes, or fails where too few are
/// left; a write always goes out.
pub open spec fn run_of(h: HandshakeModel, input: Seq<u8>, at: int, replied: Seq<u8>) -> Transcript
    decreases steps_left(h),
{
    match demand_of(h) {
        DemandModel::Stop => Transcript {
            result: match h {
                HandshakeModel::Parsed(target) => Ok(target),
                HandshakeModel::Error(kind) => Err(kind),
                _ => arbitrary(),
            },
            consumed: at as nat,
            replied,
        },
        DemandModel::Write(bytes) => run_of(
            advance_of(h, Signal::Sent),
            input,
            at,
            replied + bytes,
        ),
        DemandModel::Read(count) => if at + count <= input.len() {
            run_of(
                advance_of(h, Signal::Received(input.subrange(at, at + count))),
                input,
                at + count,
                replied,
            )
        } else {
            run_of(advance_of(h, Signal::Failed), input, input.len() as int, replied)
        },
    }
}

/// Every event brings a handshake that is not over nearer to its end: a
/// handshake takes at most seven events.
pub proof fn lemma_advance_nears_end(h: HandshakeModel, event: Signal)
    requires
        !(demand_of(h) is Stop),
    ensures
        steps_left(advance_of(h, event)) < steps_left(h),
        steps_left(h) <= 7,
{
}

/// The state machine reads the grammar: started afresh and fed a stream read
/// by read, it comes to what `handshake_of` says of that stream.
pub proof fn lemma_machine_reads_grammar(input: Seq<u8>)
    ensures
        run_of(HandshakeModel::GreetingHeader, input, 0, Seq::empty()) == handshake_of(input),
{
    reveal_with_fuel(run_of, 8);
    let empty = Seq::<u8>::empty();
    assert(empty + method_reply_bytes() =~= method_reply_bytes());
    if input.len() >= 2 && input[0] == SOCKS_VERSION && input.len() >= 2 + input[1] {
        let header = input.subrange(0, 2);
        assert(header[0] == input[0] && header[1] == input[1]);
        let at = 2 + input[1] as int;
        if input.len() >= at + 4 {
            let request = input.subrange(at, at + 4);
            assert(request[1] == input[at + 1] && request[3] == input[at + 3]);
            let target_at = at + 4;
            if input.len() >= target_at + 4 {
                let address = input.subrange(target_at, target_at + 4);
                assert(address[0] == input[target_at] && address[1] == input[target_at + 1]
                    && address[2] == input[target_at + 2] && address[3] == input[target_at + 3]);
                if input.len() >= target_at + 6 {
                    let port = input.subrange(target_at + 4, target_at + 6);
                    assert(port[0] == input[target_at + 4] && port[1] == input[target_at + 5]);
                }
            }
            if input.len() >= target_at + 1 {
                let length = input.subrange(target_at, target_at + 1);
                assert(length[0] == input[target_at]);
                let port_at = target_at + 1 + input[target_at];
                if input.len() >= port_at + 2 {
                    let port = input.subrange(port_at, port_at + 2);
                    assert(port[0] == input[port_at] && port[1] == input[port_at + 1]);
                }
            }
        }
    }
}

/// Runs the handshake on a recorded client stream: the state machine is fed
/// from `input` read by read, and what it would write is collected.
pub fn run_handshake(input: &[u8]) -> (out: HandshakeOutcome)
    ensures
        out@ == handshake_of(input@),
{
    let mut h = Handshake::new();
    let mut at: usize = 0;
    let mut replied: Vec<u8> = Vec::new();
    proof {
        lemma_machine_reads_grammar(input@);
    }
    loop
        invariant
            at <= input.len(),
            run_of(h@, input@, at as int, replied@) == handshake_of(input@),
        decreases steps_left(h@),
    {
        match h {
            Handshake::Parsed(dest) => {
                return HandshakeOutcome { result: Ok(dest), consumed: at, replied };
            },
            Handshake::Error(kind) => {
                return HandshakeOutcome { result: Err(kind), consumed: at, replied };
            },
            pending => {
                let event = match pending.demand() {
                    Demand::Read(count) => {
                        if count <= input.len() - at {
                            let chunk = slice_to_vec(slice_subrange(input, at, at + count));
                            at = at + count;
                            ClientEvent::Received(chunk)
                        } else {
                            at = input.len();
                            ClientEvent::Failed
                        }
                    },
                    Demand::Write(bytes) => {
                        let mut bytes = bytes;
                        replied.append(&mut bytes);
                        ClientEvent::Sent
                    },
                    Demand::Stop => unreached(),
                };
                proof {
                    lemma_advance_nears_end(pending@, event@);
                }
                h = pending.advance(event);
            },
        }
    }
}

/// The bytes of a greeting that offers the given methods.
pub open spec fn greeting_bytes(methods: Seq<u8>) -> Seq<u8>
    recommends
        methods.len() <= u8::MAX,
{
    seq![SOCKS_VERSION, methods.len() as u8] + methods
}

/// The bytes of a request's header.
pub open spec fn request_header_bytes(version: u8, command: u8, reserved: u8, tag: u8) -> Seq<u8> {
    seq![version, command, reserved, tag]
}

/// The bytes of a CONNECT request for an IPv4 address and a port.
pub open spec fn ipv4_request_bytes(
    version: u8,
    reserved: u8,
    address: (u8, u8, u8, u8),
    port: (u8, u8),
) -> Seq<u8> {
    request_header_bytes(version, CMD_CONNECT, reserved, ATYP_IPV4) + seq![
        address.0,
        address.1,
        address.2,
        address.3,
        port.0,
        port.1,
    ]
}

/// The bytes of a CONNECT request for a domain name and a port.
pub open spec fn domain_request_bytes(
    version: u8,
    reserved: u8,
    name: Seq<u8>,
    port: (u8, u8),
) -> Seq<u8>
    recommends
        name.len() <= u8::MAX,
{
    request_header_bytes(version, CMD_CONNECT, reserved, ATYP_DOMAIN) + seq![name.len() as u8]
        + name + seq![port.0, port.1]
}

/// A stream whose first byte is not the SOCKS5 version is refused as soon as
/// the two bytes of the greeting's header are read: whatever follows them is
/// neither read nor answered, and the state machine asks for nothing more.
pub proof fn lemma_wrong_version_is_refused_at_once(input: Seq<u8>)
    requires
        input.len() >= GREETING_HEADER_LEN,
        input[0] != SOCKS_VERSION,
    ensures
        handshake_of(input) == refused(
            ProxyError::UnsupportedVersion,
            GREETING_HEADER_LEN as int,
            Seq::empty(),
        ),
        advance_of(
            HandshakeModel::GreetingHeader,
            Signal::Received(input.subrange(0, GREETING_HEADER_LEN as int)),
        ) == HandshakeModel::Error(ProxyError::UnsupportedVersion),
        demand_of(HandshakeModel::Error(ProxyError::UnsupportedVersion)) is Stop,
{
}

/// After any accepted greeting, a request whose command is not CONNECT is
/// refused with `UnsupportedCommand`, and a CONNECT request whose address type
/// is neither IPv4 nor domain name with `UnsupportedAddressType`. Either way
/// the greeting was answered and nothing past the request's header is read.
pub proof fn lemma_unserved_request_is_refused(
    methods: Seq<u8>,
    version: u8,
    command: u8,
    reserved: u8,
    tag: u8,
    rest: Seq<u8>,
)
    requires
        methods.len() <= u8::MAX,
        command != CMD_CONNECT || (tag != ATYP_IPV4 && tag != ATYP_DOMAIN),
    ensures
        handshake_of(
            greeting_bytes(methods) + request_header_bytes(version, command, reserved, tag) + rest,
        ) == refused(
            if command != CMD_CONNECT {
                ProxyError::UnsupportedCommand
            } else {
                ProxyError::UnsupportedAddressType
            },
            GREETING_HEADER_LEN + methods.len() + REQUEST_HEADER_LEN,
            method_reply_bytes(),
        ),
{
}

/// After any accepted greeting, a CONNECT request for an IPv4 target parses:
/// the host is the dotted-quad text of the four address bytes, the port is the
/// first port byte times 256 plus the second, and the stream is read up to the
/// end of the request.
pub proof fn lemma_ipv4_request_parses(
    methods: Seq<u8>,
    version: u8,
    reserved: u8,
    address: (u8, u8, u8, u8),
    port: (u8, u8),
    rest: Seq<u8>,
)
    requires
        methods.len() <= u8::MAX,
    ensures
        handshake_of(
            greeting_bytes(methods) + ipv4_request_bytes(version, reserved, address, port) + rest,
        ) == (Transcript {
            result: Ok(
                Target {
                    host: dotted_quad(address.0, address.1, address.2, address.3),
                    port: port_of(port.0, port.1),
                },
            ),
            consumed: (GREETING_HEADER_LEN + methods.len() + REQUEST_HEADER_LEN + IPV4_LEN
                + PORT_LEN) as nat,
            replied: method_reply_bytes(),
        }),
        port_of(port.0, port.1) as int == port.0 as int * 256 + port.1 as int,
{
}

/// After any accepted greeting, a CONNECT request for a domain name of `L`
/// bytes has exactly those `L` bytes taken as the host and the two bytes after
/// them as the port. Where the name is well-formed UTF-8 the host is the text
/// that it encodes; where it is not, the request is refused with
/// `MalformedRequest` before the port is read.
pub proof fn lemma_domain_request_parses(
    methods: Seq<u8>,
    version: u8,
    reserved: u8,
    name: Seq<u8>,
    port: (u8, u8),
    rest: Seq<u8>,
)
    requires
        methods.len() <= u8::MAX,
        name.len() <= u8::MAX,
    ensures
        handshake_of(
            greeting_bytes(methods) + domain_request_bytes(version, reserved, name, port) + rest,
        ) == if valid_utf8(name) {
            Transcript {
                result: Ok(
                    Target { host: decode_utf8(name), port: port_of(port.0, port.1) },
                ),
                consumed: (GREETING_HEADER_LEN + methods.len() + REQUEST_HEADER_LEN + 1
                    + name.len() + PORT_LEN) as nat,
                replied: method_reply_bytes(),
            }
        } else {
            refused(
                ProxyError::MalformedRequest,
                GREETING_HEADER_LEN + methods.len() + REQUEST_HEADER_LEN + 1 + name.len(),
                method_reply_bytes(),
            )
        },
        port_of(port.0, port.1) as int == port.0 as int * 256 + port.1 as int,
{
    let input = greeting_bytes(methods) + domain_request_bytes(version, reserved, name, port)
        + rest;
    let at = GREETING_HEADER_LEN + methods.len();
    let name_at = at + REQUEST_HEADER_LEN + 1;
    let port_at = name_at + name.len();
    assert(input.subrange(name_at, port_at) =~= name);
}

/// The host of every destination that the grammar finds takes at most 255
/// bytes as UTF-8: it fits the one length byte with which a CONNECT request
/// to the upstream proxy names a domain.
pub proof fn lemma_parsed_host_fits_length_byte(input: Seq<u8>)
    requires
        handshake_of(input).result is Ok,
    ensures
        encode_utf8(handshake_of(input).result->Ok_0.host).len() <= u8::MAX,
{
    let at = GREETING_HEADER_LEN + input[1] + REQUEST_HEADER_LEN;
    let host = handshake_of(input).result->Ok_0.host;
    if address_type_of(input[at - 1]) == AddressType::Ipv4 {
        lemma_dotted_quad_is_short_ascii(input[at], input[at + 1], input[at + 2], input[at + 3]);
        is_ascii_chars_encode_utf8(host);
    } else {
        let name = input.subrange(at + 1, at + 1 + input[at]);
        decode_utf8_encode_utf8(name);
    }
}

} // verus!
