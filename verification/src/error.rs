//! The failure kinds of the relay.

use vstd::prelude::*;

verus! {

/// Why the relay, or one of its sessions, gave up.
#[derive(Clone, Copy, Debug, PartialEq, Eq, Structural)]
pub enum ProxyError {
    /// The upstream proxy accepted no connection within the probe budget.
    StartupTimeout,
    /// The greeting did not announce SOCKS version 5.
    UnsupportedVersion,
    /// The request asked for something other than CONNECT.
    UnsupportedCommand,
    /// The request named a target that is neither IPv4 nor a domain name.
    UnsupportedAddressType,
    /// The client's bytes ended early, or the host name is not valid text.
    MalformedRequest,
    /// The upstream proxy could not be reached or refused the target.
    UpstreamConnectFailed,
    /// A socket failed while the session's bytes were being moved.
    RelayIOError,
}

/// The words in which a failure is reported.
pub open spec fn message_of(kind: ProxyError) -> Seq<char> {
    match kind {
        ProxyError::StartupTimeout => "upstream proxy did not start in time"@,
        ProxyError::UnsupportedVersion => "unsupported SOCKS version"@,
        ProxyError::UnsupportedCommand => "only CONNECT is supported"@,
        ProxyError::UnsupportedAddressType => "address type not supported"@,
        ProxyError::MalformedRequest => "malformed request"@,
        ProxyError::UpstreamConnectFailed => "upstream connect failed"@,
        ProxyError::RelayIOError => "relay I/O error"@,
    }
}

impl ProxyError {
    /// Whether the failure ends the whole relay rather than one session:
    /// only a start-up that timed out does.
    pub fn is_fatal(&self) -> (fatal: bool)
        ensures
            fatal == (*self == ProxyError::StartupTimeout),
    {
        match self {
            ProxyError::StartupTimeout => true,
            _ => false,
        }
    }

    /// The words in which the failure is reported.
    pub fn message(&self) -> (text: &'static str)
        ensures
            text@ == message_of(*self),
    {
        match self {
            ProxyError::StartupTimeout => "upstream proxy did not start in time",
            ProxyError::UnsupportedVersion => "unsupported SOCKS version",
            ProxyError::UnsupportedCommand => "only CONNECT is supported",
            ProxyError::UnsupportedAddressType => "address type not supported",
            ProxyError::MalformedRequest => "malformed request",
            ProxyError::UpstreamConnectFailed => "upstream connect failed",
            ProxyError::RelayIOError => "relay I/O error",
        }
    }
}

} // verus!
