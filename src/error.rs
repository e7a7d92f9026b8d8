//! The fatal conditions of server startup and of the accept loop.
use vstd::prelude::*;

verus! {

/// A condition under which the server cannot do its job at all.
///
/// Each one ends startup (or the accept loop) for good: there is no retry.
#[derive(Clone, Copy, Debug, PartialEq, Eq, Structural)]
pub enum Fatal {
    /// The address specification resolved to no address at all.
    UnresolvableAddress,
    /// The address specification could not be parsed.
    UnparsableAddress,
    /// The listening socket could not be opened.
    BindFailed,
    /// The bound socket did not report its local address.
    LocalAddressUnavailable,
    /// The listener failed while accepting a connection.
    AcceptFailed,
    /// The worker pool cannot be built with the requested number of threads.
    ThreadCountOutOfRange,
}

impl Fatal {
    /// The operator-facing cause of this condition.
    pub fn describe(&self) -> (r: &'static str)
        ensures
            *self == Fatal::UnresolvableAddress ==> r@ == "unable to resolve listener address"@,
            *self == Fatal::UnparsableAddress ==> r@ == "unable to parse listener address"@,
            *self == Fatal::BindFailed ==> r@ == "unable to open TCP listener"@,
            *self == Fatal::LocalAddressUnavailable ==> r@ == "unable to read the listener's local address"@,
            *self == Fatal::AcceptFailed ==> r@ == "socket error while accepting a connection"@,
            *self == Fatal::ThreadCountOutOfRange ==> r@ == "worker thread count out of range"@,
    {
        match self {
            Fatal::UnresolvableAddress => "unable to resolve listener address",
            Fatal::UnparsableAddress => "unable to parse listener address",
            Fatal::BindFailed => "unable to open TCP listener",
            Fatal::LocalAddressUnavailable => "unable to read the listener's local address",
            Fatal::AcceptFailed => "socket error while accepting a connection",
            Fatal::ThreadCountOutOfRange => "worker thread count out of range",
        }
    }
}

} // verus!
