//! The accept loop's decisions: from the current phase and what the caller
//! observed, the next phase and the action the caller performs next.
//!
//! The caller owns the sockets. It resolves the address specification, binds,
//! logs and accepts as the actions say, and reports each outcome back as an
//! event.
use vstd::prelude::*;

use crate::address::{candidates_view, listen_address_of, resolve_listen_address, SocketAddress};
use crate::error::Fatal;

verus! {

/// Where the server stands between startup and the running accept loop.
#[derive(Clone, Copy, Debug, PartialEq, Eq, Structural)]
pub enum Phase {
    /// Nothing has been done yet.
    Unstarted,
    /// The listen address is known; no socket exists yet.
    AddressResolved(SocketAddress),
    /// The listener is bound to this local address.
    ListenerBound(SocketAddress),
    /// The listener at this local address is taking connections.
    Accepting(SocketAddress),
    /// A fatal condition ended startup or the accept loop.
    Aborted(Fatal),
}

/// What the caller observed after carrying out the last action.
#[derive(Debug)]
pub enum Event {
    /// The outcome of resolving the address specification: `Err(())` where it
    /// did not parse, else the candidate addresses in order.
    Resolved(Result<Vec<SocketAddress>, ()>),
    /// Opening the listening socket failed.
    BindFailed,
    /// The socket is bound; the local address it reported, if it reported one.
    Bound(Option<SocketAddress>),
    /// The listen address was logged.
    Announced,
    /// A connection was accepted; its peer's address, if the socket reported
    /// one. A connection whose peer cannot be named is dropped on its own.
    Accepted(Option<SocketAddress>),
    /// The listener failed while accepting.
    AcceptFailed,
}

/// What the caller does next.
#[derive(Clone, Copy, Debug, PartialEq, Eq, Structural)]
pub enum Action {
    /// Open a listening socket on this address.
    Bind(SocketAddress),
    /// Log that the server listens on this address.
    Announce(SocketAddress),
    /// Wait for the next connection (dropping the last one, if it was not served).
    AcceptNext,
    /// Build the service of the connection from this peer, spawn a task
    /// that serves it, and wait for the next connection at once.
    Serve(SocketAddress),
    /// Stop the server for this cause.
    Abort(Fatal),
    /// The event does not belong to the current phase: nothing to do.
    Ignore,
}

/// The transition of the accept loop's state machine.
pub open spec fn next(p: Phase, e: Event) -> (Phase, Action) {
    match p {
        Phase::Unstarted => match e {
            Event::Resolved(c) => match listen_address_of(candidates_view(c)) {
                Ok(a) => (Phase::AddressResolved(a), Action::Bind(a)),
                Err(f) => (Phase::Aborted(f), Action::Abort(f)),
            },
            _ => (p, Action::Ignore),
        },
        Phase::AddressResolved(_) => match e {
            Event::BindFailed => (Phase::Aborted(Fatal::BindFailed), Action::Abort(Fatal::BindFailed)),
            Event::Bound(Some(l)) => (Phase::ListenerBound(l), Action::Announce(l)),
            Event::Bound(None) => (
                Phase::Aborted(Fatal::LocalAddressUnavailable),
                Action::Abort(Fatal::LocalAddressUnavailable),
            ),
            _ => (p, Action::Ignore),
        },
        Phase::ListenerBound(l) => match e {
            Event::Announced => (Phase::Accepting(l), Action::AcceptNext),
            _ => (p, Action::Ignore),
        },
        Phase::Accepting(_) => match e {
            Event::Accepted(Some(peer)) => (p, Action::Serve(peer)),
            Event::Accepted(None) => (p, Action::AcceptNext),
            Event::AcceptFailed => (
                Phase::Aborted(Fatal::AcceptFailed),
                Action::Abort(Fatal::AcceptFailed),
            ),
            _ => (p, Action::Ignore),
        },
        Phase::Aborted(_) => (p, Action::Ignore),
    }
}

/// The phase reached and the actions taken when `events` arrive in order,
/// starting from phase `p`.
pub open spec fn run(p: Phase, events: Seq<Event>) -> (Phase, Seq<Action>)
    decreases events.len(),
{
    if events.len() == 0 {
        (p, Seq::empty())
    } else {
        let (q, a) = next(p, events[0]);
        let (r, rest) = run(q, events.subrange(1, events.len() as int));
        (r, seq![a] + rest)
    }
}

/// The accept loop's state machine.
pub struct Acceptor {
    pub phase: Phase,
}

impl Acceptor {
    /// A server that has not started.
    pub fn new() -> (r: Acceptor)
        ensures
            r.phase == Phase::Unstarted,
    {
        Acceptor { phase: Phase::Unstarted }
    }

    /// The current phase.
    pub fn current_phase(&self) -> (r: Phase)
        ensures
            r == self.phase,
    {
        self.phase
    }

    /// Takes in one event and returns the action to perform next.
    pub fn handle(&mut self, event: &Event) -> (r: Action)
        ensures
            (final(self).phase, r) == next(old(self).phase, *event),
    {
        let (p, a) = step(self.phase, event);
        self.phase = p;
        a
    }
}

/// The next phase and action, from the current phase and one event.
pub fn step(phase: Phase, event: &Event) -> (r: (Phase, Action))
    ensures
        r == next(phase, *event),
{
    match phase {
        Phase::Unstarted => match event {
            Event::Resolved(c) => match resolve_listen_address(c) {
                Ok(a) => (Phase::AddressResolved(a), Action::Bind(a)),
                Err(f) => (Phase::Aborted(f), Action::Abort(f)),
            },
            _ => (phase, Action::Ignore),
        },
        Phase::AddressResolved(_) => match event {
            Event::BindFailed => (Phase::Aborted(Fatal::BindFailed), Action::Abort(Fatal::BindFailed)),
            Event::Bound(Some(l)) => (Phase::ListenerBound(*l), Action::Announce(*l)),
            Event::Bound(None) => (
                Phase::Aborted(Fatal::LocalAddressUnavailable),
                Action::Abort(Fatal::LocalAddressUnavailable),
            ),
            _ => (phase, Action::Ignore),
        },
        Phase::ListenerBound(l) => match event {
            Event::Announced => (Phase::Accepting(l), Action::AcceptNext),
            _ => (phase, Action::Ignore),
        },
        Phase::Accepting(_) => match event {
            Event::Accepted(Some(peer)) => (phase, Action::Serve(*peer)),
            Event::Accepted(None) => (phase, Action::AcceptNext),
            Event::AcceptFailed => (
                Phase::Aborted(Fatal::AcceptFailed),
                Action::Abort(Fatal::AcceptFailed),
            ),
            _ => (phase, Action::Ignore),
        },
        Phase::Aborted(_) => (phase, Action::Ignore),
    }
}

/// Running `e` first and then `rest` is one step followed by the run of `rest`.
proof fn lemma_run_cons(p: Phase, e: Event, rest: Seq<Event>)
    ensures
        run(p, seq![e] + rest) == ({
            let (q, a) = next(p, e);
            let (r, acts) = run(q, rest);
            (r, seq![a] + acts)
        }),
{
    let es = seq![e] + rest;
    assert(es[0] == e);
    assert(es.subrange(1, es.len() as int) =~= rest);
}

/// Once aborted, the server stays aborted and does nothing, whatever it is told.
pub proof fn lemma_aborted_stays_idle(f: Fatal, events: Seq<Event>)
    ensures
        run(Phase::Aborted(f), events).0 == Phase::Aborted(f),
        run(Phase::Aborted(f), events).1 =~= Seq::new(events.len(), |i: int| Action::Ignore),
    decreases events.len(),
{
    if events.len() > 0 {
        let rest = events.subrange(1, events.len() as int);
        lemma_aborted_stays_idle(f, rest);
    }
}

/// An address specification that resolves to at least one address makes the
/// server bind the first of them; the server then announces and accepts on
/// the local address that the bound socket reports, whatever port was asked.
pub proof fn lemma_resolved_address_is_bound(
    candidates: Vec<SocketAddress>,
    local: SocketAddress,
)
    requires
        candidates@.len() > 0,
    ensures
        next(Phase::Unstarted, Event::Resolved(Ok(candidates))) == (
            Phase::AddressResolved(candidates@[0]),
            Action::Bind(candidates@[0]),
        ),
        run(
            Phase::Unstarted,
            seq![Event::Resolved(Ok(candidates)), Event::Bound(Some(local)), Event::Announced],
        ) == (
            Phase::Accepting(local),
            seq![Action::Bind(candidates@[0]), Action::Announce(local), Action::AcceptNext],
        ),
{
    let first = candidates@[0];
    let e0 = Event::Resolved(Ok(candidates));
    let e1 = Event::Bound(Some(local));
    let e2 = Event::Announced;
    lemma_run_cons(Phase::ListenerBound(local), e2, Seq::empty());
    assert(seq![e2] + Seq::<Event>::empty() =~= seq![e2]);
    lemma_run_cons(Phase::AddressResolved(first), e1, seq![e2]);
    assert(seq![e1] + seq![e2] =~= seq![e1, e2]);
    lemma_run_cons(Phase::Unstarted, e0, seq![e1, e2]);
    assert(seq![e0] + seq![e1, e2] =~= seq![e0, e1, e2]);
    assert(seq![Action::AcceptNext] + Seq::<Action>::empty() =~= seq![Action::AcceptNext]);
    assert(seq![Action::Announce(local)] + seq![Action::AcceptNext] =~= seq![
        Action::Announce(local),
        Action::AcceptNext,
    ]);
    assert(seq![Action::Bind(first)] + seq![Action::Announce(local), Action::AcceptNext] =~= seq![
        Action::Bind(first),
        Action::Announce(local),
        Action::AcceptNext,
    ]);
}

/// An address specification that resolves to no address, or does not parse,
/// ends startup at once with that cause, and no socket is ever opened
/// afterwards, whatever follows.
pub proof fn lemma_unresolvable_never_binds(
    candidates: Result<Vec<SocketAddress>, ()>,
    later: Seq<Event>,
)
    requires
        listen_address_of(candidates_view(candidates)) is Err,
    ensures
        ({
            let f = listen_address_of(candidates_view(candidates))->Err_0;
            let (p, acts) = run(Phase::Unstarted, seq![Event::Resolved(candidates)] + later);
            &&& p == Phase::Aborted(f)
            &&& acts[0] == Action::Abort(f)
            &&& acts.len() == later.len() + 1
            &&& forall|i: int| 0 <= i < acts.len() ==> !(#[trigger] acts[i] is Bind)
        }),
{
    let f = listen_address_of(candidates_view(candidates))->Err_0;
    lemma_run_cons(Phase::Unstarted, Event::Resolved(candidates), later);
    lemma_aborted_stays_idle(f, later);
    let acts = run(Phase::Unstarted, seq![Event::Resolved(candidates)] + later).1;
    assert forall|i: int| 0 <= i < acts.len() implies !(#[trigger] acts[i] is Bind) by {
        if i > 0 {
            assert(acts[i] == run(Phase::Aborted(f), later).1[i - 1]);
        }
    }
}

/// Every connection accepted by a running listener is served by exactly one
/// task of its own, in the order of acceptance, and the listener goes on
/// accepting.
pub proof fn lemma_each_connection_served_once(local: SocketAddress, peers: Seq<SocketAddress>)
    ensures
        run(Phase::Accepting(local), peers.map_values(|x: SocketAddress| Event::Accepted(Some(x))))
            == (Phase::Accepting(local), peers.map_values(|x: SocketAddress| Action::Serve(x))),
    decreases peers.len(),
{
    let events = peers.map_values(|x: SocketAddress| Event::Accepted(Some(x)));
    if peers.len() > 0 {
        let rest = peers.subrange(1, peers.len() as int);
        lemma_each_connection_served_once(local, rest);
        assert(events.subrange(1, events.len() as int) =~= rest.map_values(
            |x: SocketAddress| Event::Accepted(Some(x)),
        ));
        assert(peers.map_values(|x: SocketAddress| Action::Serve(x)) =~= seq![
            Action::Serve(peers[0]),
        ] + rest.map_values(|x: SocketAddress| Action::Serve(x)));
    }
}

/// The action taken for one accepted connection: a task for a peer whose
/// address was read, and otherwise the connection is dropped.
pub open spec fn accept_action(peer: Option<SocketAddress>) -> Action {
    match peer {
        Some(x) => Action::Serve(x),
        None => Action::AcceptNext,
    }
}

/// A running listener serves every accepted connection whose peer can be
/// named, each by one task of its own and in the order of acceptance; a
/// connection whose peer cannot be named is dropped alone, and the listener
/// goes on accepting in every case.
pub proof fn lemma_connections_fail_alone(
    local: SocketAddress,
    accepted: Seq<Option<SocketAddress>>,
)
    ensures
        run(
            Phase::Accepting(local),
            accepted.map_values(|o: Option<SocketAddress>| Event::Accepted(o)),
        ) == (
            Phase::Accepting(local),
            accepted.map_values(|o: Option<SocketAddress>| accept_action(o)),
        ),
    decreases accepted.len(),
{
    let events = accepted.map_values(|o: Option<SocketAddress>| Event::Accepted(o));
    if accepted.len() > 0 {
        let rest = accepted.subrange(1, accepted.len() as int);
        lemma_connections_fail_alone(local, rest);
        assert(events.subrange(1, events.len() as int) =~= rest.map_values(
            |o: Option<SocketAddress>| Event::Accepted(o),
        ));
        assert(accepted.map_values(|o: Option<SocketAddress>| accept_action(o)) =~= seq![
            accept_action(accepted[0]),
        ] + rest.map_values(|o: Option<SocketAddress>| accept_action(o)));
    }
}

/// Only a failure of the listener itself takes the server out of accepting:
/// every other event leaves it accepting on the same address.
pub proof fn lemma_only_accept_errors_end_accepting(local: SocketAddress, e: Event)
    ensures
        !(e is AcceptFailed) ==> next(Phase::Accepting(local), e).0 == Phase::Accepting(local),
        e is AcceptFailed ==> next(Phase::Accepting(local), e) == (
            Phase::Aborted(Fatal::AcceptFailed),
            Action::Abort(Fatal::AcceptFailed),
        ),
{
}

} // verus!
