//! The target of a CONNECT request.

use vstd::prelude::*;

verus! {

/// What a `Destination` stands for: the characters of the host and the port.
pub struct Target {
    pub host: Seq<char>,
    pub port: u16,
}

/// Where a session's client asked to be connected: a host, as dotted-quad
/// text or as a domain name, and a port.
#[derive(Debug, PartialEq, Eq)]
pub struct Destination {
    pub host: String,
    pub port: u16,
}

impl View for Destination {
    type V = Target;

    open spec fn view(&self) -> Target {
        Target { host: self.host@, port: self.port }
    }
}

impl Destination {
    /// A destination of the given host and port.
    pub fn new(host: String, port: u16) -> (dest: Destination)
        ensures
            dest@ == (Target { host: host@, port: port }),
    {
        Destination { host, port }
    }

    /// A second value of the same host and port.
    pub fn duplicate(&self) -> (copy: Destination)
        ensures
            copy@ == self@,
    {
        Destination { host: self.host.clone(), port: self.port }
    }
}

} // verus!
