//! Per-connection services, each bound to the shared handler factory and to
//! one peer's address.
use vstd::prelude::*;

use crate::address::SocketAddress;

verus! {

/// Makes one connection service per accepted connection from a handler
/// factory that all connections share (typically behind an `Arc`).
pub struct ConnectionFactory<H> {
    pub new_handler: H,
}

/// The service of exactly one connection: the shared handler factory and
/// the address of the peer on the other end.
pub struct ConnectionService<H> {
    pub new_handler: H,
    pub peer: SocketAddress,
}

impl<H: Clone> ConnectionFactory<H> {
    pub fn new(new_handler: H) -> (r: ConnectionFactory<H>)
        ensures
            r.new_handler == new_handler,
    {
        ConnectionFactory { new_handler }
    }

    /// The service of a newly accepted connection from `peer`. It takes its
    /// own copy of the handler factory and does no other work.
    pub fn connect(&self, peer: SocketAddress) -> (r: ConnectionService<H>)
        ensures
            r.peer == peer,
            cloned(self.new_handler, r.new_handler),
    {
        ConnectionService { new_handler: self.new_handler.clone(), peer }
    }
}

impl<H> ConnectionService<H> {
    /// The address of the peer this service answers.
    pub fn peer_address(&self) -> (r: SocketAddress)
        ensures
            r == self.peer,
    {
        self.peer
    }
}

} // verus!
