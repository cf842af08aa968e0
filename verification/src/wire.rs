//! The bytes of the SOCKS5 server role: constants, the address-type tag, the
//! two fixed replies and the port encoding.

use vstd::prelude::*;

verus! {

/// The protocol version that a greeting must announce.
pub const SOCKS_VERSION: u8 = 0x05;

/// The method "no authentication required", the only one offered.
pub const METHOD_NO_AUTH: u8 = 0x00;

/// The CONNECT command, the only one served.
pub const CMD_CONNECT: u8 = 0x01;

/// Address type of a 4-byte IPv4 address.
pub const ATYP_IPV4: u8 = 0x01;

/// Address type of a length-prefixed domain name.
pub const ATYP_DOMAIN: u8 = 0x03;

/// Address type of a 16-byte IPv6 address, which is not served.
pub const ATYP_IPV6: u8 = 0x04;

/// Length of the greeting's fixed part: version and method count.
pub const GREETING_HEADER_LEN: usize = 2;

/// Length of the request's fixed part: version, command, reserved, address type.
pub const REQUEST_HEADER_LEN: usize = 4;

/// Length of an IPv4 address on the wire.
pub const IPV4_LEN: usize = 4;

/// Length of a port on the wire.
pub const PORT_LEN: usize = 2;

/// How a request names its target.
#[derive(Clone, Copy, Debug, PartialEq, Eq, Structural)]
pub enum AddressType {
    /// Four raw address bytes.
    Ipv4,
    /// One length byte, then that many bytes of host name.
    DomainName,
    /// IPv6 and every other tag: not served.
    Unsupported,
}

/// The address type that a tag byte stands for.
pub open spec fn address_type_of(tag: u8) -> AddressType {
    if tag == ATYP_IPV4 {
        AddressType::Ipv4
    } else if tag == ATYP_DOMAIN {
        AddressType::DomainName
    } else {
        AddressType::Unsupported
    }
}

impl AddressType {
    /// Classifies the address-type byte of a request.
    pub fn from_byte(tag: u8) -> (kind: AddressType)
        ensures
            kind == address_type_of(tag),
    {
        if tag == ATYP_IPV4 {
            AddressType::Ipv4
        } else if tag == ATYP_DOMAIN {
            AddressType::DomainName
        } else {
            AddressType::Unsupported
        }
    }
}

/// The port that two bytes in network order encode.
pub open spec fn port_of(high: u8, low: u8) -> u16 {
    (high as int * 256 + low as int) as u16
}

/// Decodes a port from its two bytes, most significant first.
pub fn decode_port(high: u8, low: u8) -> (port: u16)
    ensures
        port == port_of(high, low),
        port as int == high as int * 256 + low as int,
{
    let wide: u16 = high as u16;
    wide * 256 + low as u16
}

/// The reply to a greeting: version 5, method "no authentication required".
pub open spec fn method_reply_bytes() -> Seq<u8> {
    seq![SOCKS_VERSION, METHOD_NO_AUTH]
}

/// The reply sent before relaying: version 5, status "succeeded", reserved,
/// IPv4 bound address 0.0.0.0 and bound port 0.
pub open spec fn success_reply_bytes() -> Seq<u8> {
    seq![SOCKS_VERSION, 0u8, 0u8, ATYP_IPV4, 0u8, 0u8, 0u8, 0u8, 0u8, 0u8]
}

/// Builds the reply to a greeting.
pub fn method_reply() -> (reply: Vec<u8>)
    ensures
        reply@ == method_reply_bytes(),
{
    let mut reply: Vec<u8> = Vec::new();
    reply.push(SOCKS_VERSION);
    reply.push(METHOD_NO_AUTH);
    reply
}

/// Builds the success reply that precedes the relay.
pub fn success_reply() -> (reply: Vec<u8>)
    ensures
        reply@ == success_reply_bytes(),
{
    let mut reply: Vec<u8> = Vec::new();
    reply.push(SOCKS_VERSION);
    reply.push(0u8);
    reply.push(0u8);
    reply.push(ATYP_IPV4);
    reply.push(0u8);
    reply.push(0u8);
    reply.push(0u8);
    reply.push(0u8);
    reply.push(0u8);
    reply.push(0u8);
    reply
}

} // verus!
