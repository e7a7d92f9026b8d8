//! Socket addresses as plain values, and the choice of the listen address.
use vstd::prelude::*;

use crate::error::Fatal;

verus! {

/// An IP address: version 4 as its 32-bit number, version 6 as its 128-bit number.
#[derive(Clone, Copy, Debug, PartialEq, Eq, Structural)]
pub enum IpAddress {
    V4(u32),
    V6(u128),
}

/// An IP address together with a TCP port.
#[derive(Clone, Copy, Debug, PartialEq, Eq, Structural)]
pub struct SocketAddress {
    pub ip: IpAddress,
    pub port: u16,
}

/// Port 0 asks the operating system to pick a free port when binding.
pub const WILDCARD_PORT: u16 = 0;

impl SocketAddress {
    pub open spec fn is_v4(self) -> bool {
        self.ip is V4
    }

    pub open spec fn has_wildcard_port(self) -> bool {
        self.port == WILDCARD_PORT
    }

    /// Both addresses belong to the same address family.
    pub open spec fn same_family(self, other: SocketAddress) -> bool {
        self.is_v4() == other.is_v4()
    }

    /// Whether this is an IPv4 address.
    pub fn is_ipv4(&self) -> (r: bool)
        ensures
            r == self.is_v4(),
    {
        match self.ip {
            IpAddress::V4(_) => true,
            IpAddress::V6(_) => false,
        }
    }

    /// Whether the port is left for the operating system to choose.
    pub fn is_wildcard_port(&self) -> (r: bool)
        ensures
            r == self.has_wildcard_port(),
    {
        self.port == WILDCARD_PORT
    }
}

/// The address the server listens on, given what resolving the caller's
/// address specification produced: `Err(())` where the specification did not
/// parse, otherwise the candidate addresses in the resolver's order.
pub open spec fn listen_address_of(candidates: Result<Seq<SocketAddress>, ()>) -> Result<
    SocketAddress,
    Fatal,
> {
    match candidates {
        Err(_) => Err(Fatal::UnparsableAddress),
        Ok(s) => if s.len() == 0 {
            Err(Fatal::UnresolvableAddress)
        } else {
            Ok(s[0])
        },
    }
}

/// The view of a resolver's outcome as a sequence of candidates.
pub open spec fn candidates_view(candidates: Result<Vec<SocketAddress>, ()>) -> Result<
    Seq<SocketAddress>,
    (),
> {
    match candidates {
        Err(_) => Err(()),
        Ok(v) => Ok(v@),
    }
}

/// Picks the first resolved candidate; no candidate, or a specification that
/// did not parse, is fatal.
pub fn resolve_listen_address(candidates: &Result<Vec<SocketAddress>, ()>) -> (r: Result<
    SocketAddress,
    Fatal,
>)
    ensures
        r == listen_address_of(candidates_view(*candidates)),
{
    match candidates {
        Err(_) => Err(Fatal::UnparsableAddress),
        Ok(v) => {
            if v.len() == 0 {
                Err(Fatal::UnresolvableAddress)
            } else {
                Ok(v[0])
            }
        },
    }
}

} // verus!
