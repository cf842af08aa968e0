//! Decoders for the pieces of a client's greeting and request, each on the
//! bytes of one read.

use vstd::prelude::*;
use vstd::utf8::{
    decode_utf8, encode_utf8, encode_utf8_decode_utf8, encode_utf8_valid_utf8, is_ascii_chars,
    is_ascii_chars_encode_utf8, valid_utf8,
};
use crate::error::ProxyError;
use crate::text::{dotted_quad, render_ipv4};
use crate::wire::{
    address_type_of, decode_port, port_of, AddressType, CMD_CONNECT, GREETING_HEADER_LEN,
    IPV4_LEN, PORT_LEN, REQUEST_HEADER_LEN, SOCKS_VERSION,
};

verus! {

/// The error with which `String::from_utf8` hands back bytes that are not text.
#[verifier::external_type_specification]
#[verifier::external_body]
pub struct ExFromUtf8Error(std::string::FromUtf8Error);

/// `String::from_utf8` of std: it succeeds exactly on well-formed UTF-8, and
/// the string it then returns holds the characters that the bytes encode.
pub assume_specification[ String::from_utf8 ](vec: Vec<u8>) -> (text: Result<
    String,
    std::string::FromUtf8Error,
>)
    ensures
        text is Ok <==> valid_utf8(vec@),
        text matches Ok(s) ==> s@ == decode_utf8(vec@),
;

/// What a greeting's two header bytes say: the number of method bytes that
/// follow, or why the greeting is refused.
pub open spec fn greeting_header_spec(bytes: Seq<u8>) -> Result<u8, ProxyError> {
    if bytes.len() != GREETING_HEADER_LEN {
        Err(ProxyError::MalformedRequest)
    } else if bytes[0] != SOCKS_VERSION {
        Err(ProxyError::UnsupportedVersion)
    } else {
        Ok(bytes[1])
    }
}

/// What a request's four header bytes say: how the target is written, or why
/// the request is refused. The command is judged before the address type; the
/// version and reserved bytes are not looked at.
pub open spec fn request_header_spec(bytes: Seq<u8>) -> Result<AddressType, ProxyError> {
    if bytes.len() != REQUEST_HEADER_LEN {
        Err(ProxyError::MalformedRequest)
    } else if bytes[1] != CMD_CONNECT {
        Err(ProxyError::UnsupportedCommand)
    } else if address_type_of(bytes[3]) == AddressType::Unsupported {
        Err(ProxyError::UnsupportedAddressType)
    } else {
        Ok(address_type_of(bytes[3]))
    }
}

/// The host that four address bytes name.
pub open spec fn ipv4_host_spec(bytes: Seq<u8>) -> Result<Seq<char>, ProxyError> {
    if bytes.len() != IPV4_LEN {
        Err(ProxyError::MalformedRequest)
    } else {
        Ok(dotted_quad(bytes[0], bytes[1], bytes[2], bytes[3]))
    }
}

/// The host that the bytes of a domain name spell, where they are
/// well-formed UTF-8.
pub open spec fn domain_host_spec(bytes: Seq<u8>) -> Result<Seq<char>, ProxyError> {
    if valid_utf8(bytes) {
        Ok(decode_utf8(bytes))
    } else {
        Err(ProxyError::MalformedRequest)
    }
}

/// The port that two bytes encode, most significant first.
pub open spec fn port_spec(bytes: Seq<u8>) -> Result<u16, ProxyError> {
    if bytes.len() != PORT_LEN {
        Err(ProxyError::MalformedRequest)
    } else {
        Ok(port_of(bytes[0], bytes[1]))
    }
}

/// Judges the fixed part of a greeting and returns the method count.
pub fn read_greeting_header(bytes: &[u8]) -> (count: Result<u8, ProxyError>)
    ensures
        count == greeting_header_spec(bytes@),
{
    if bytes.len() != GREETING_HEADER_LEN {
        Err(ProxyError::MalformedRequest)
    } else if bytes[0] != SOCKS_VERSION {
        Err(ProxyError::UnsupportedVersion)
    } else {
        Ok(bytes[1])
    }
}

/// Judges the fixed part of a request and returns the target's address type.
pub fn read_request_header(bytes: &[u8]) -> (kind: Result<AddressType, ProxyError>)
    ensures
        kind == request_header_spec(bytes@),
{
    if bytes.len() != REQUEST_HEADER_LEN {
        return Err(ProxyError::MalformedRequest);
    }
    if bytes[1] != CMD_CONNECT {
        return Err(ProxyError::UnsupportedCommand);
    }
    match AddressType::from_byte(bytes[3]) {
        AddressType::Unsupported => Err(ProxyError::UnsupportedAddressType),
        kind => Ok(kind),
    }
}

/// Renders the four bytes of an IPv4 target as its host text.
pub fn read_ipv4_host(bytes: &[u8]) -> (host: Result<String, ProxyError>)
    ensures
        host is Ok <==> ipv4_host_spec(bytes@) is Ok,
        host matches Ok(text) ==> ipv4_host_spec(bytes@) == Ok::<Seq<char>, ProxyError>(text@),
        host matches Err(e) ==> ipv4_host_spec(bytes@) == Err::<Seq<char>, ProxyError>(e),
{
    if bytes.len() != IPV4_LEN {
        Err(ProxyError::MalformedRequest)
    } else {
        Ok(render_ipv4(bytes[0], bytes[1], bytes[2], bytes[3]))
    }
}

/// Decodes the bytes of a domain name into its host text.
pub fn read_domain_host(bytes: Vec<u8>) -> (host: Result<String, ProxyError>)
    ensures
        host is Ok <==> domain_host_spec(bytes@) is Ok,
        host matches Ok(text) ==> domain_host_spec(bytes@) == Ok::<Seq<char>, ProxyError>(text@),
        host matches Err(e) ==> domain_host_spec(bytes@) == Err::<Seq<char>, ProxyError>(e),
{
    match String::from_utf8(bytes) {
        Ok(text) => Ok(text),
        Err(_) => Err(ProxyError::MalformedRequest),
    }
}

/// Decodes the two bytes of a port.
pub fn read_port(bytes: &[u8]) -> (port: Result<u16, ProxyError>)
    ensures
        port == port_spec(bytes@),
{
    if bytes.len() != PORT_LEN {
        Err(ProxyError::MalformedRequest)
    } else {
        Ok(decode_port(bytes[0], bytes[1]))
    }
}

/// A host name of ASCII bytes only is well-formed, and its text has one
/// character for each byte, with the byte's value.
pub proof fn lemma_ascii_name_is_text(name: Seq<u8>)
    requires
        forall|i: int| 0 <= i < name.len() ==> name[i] < 0x80,
    ensures
        domain_host_spec(name) == Ok::<Seq<char>, ProxyError>(
            Seq::new(name.len(), |i: int| name[i] as char),
        ),
{
    let text = Seq::new(name.len(), |i: int| name[i] as char);
    is_ascii_chars_encode_utf8(text);
    assert(encode_utf8(text) =~= name);
    encode_utf8_valid_utf8(text);
    encode_utf8_decode_utf8(text);
}

} // verus!
