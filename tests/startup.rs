use std::sync::Arc;

use gotham::address::{resolve_listen_address, IpAddress, SocketAddress};
use gotham::bootstrap::{step, Acceptor, Action, Event, Phase};
use gotham::error::Fatal;
use gotham::executor::{default_thread_count, PoolPlan, Submission, TaskLedger, MAX_WORKER_THREADS};
use gotham::service::ConnectionFactory;

fn v4(a: u8, b: u8, c: u8, d: u8, port: u16) -> SocketAddress {
    let ip = ((a as u32) << 24) | ((b as u32) << 16) | ((c as u32) << 8) | (d as u32);
    SocketAddress { ip: IpAddress::V4(ip), port }
}

fn loopback_v6(port: u16) -> SocketAddress {
    SocketAddress { ip: IpAddress::V6(1), port }
}

#[test]
fn resolve_takes_first_candidate() {
    let first = v4(127, 0, 0, 1, 7878);
    let second = loopback_v6(7878);
    assert_eq!(resolve_listen_address(&Ok(vec![first, second])), Ok(first));
    assert_eq!(resolve_listen_address(&Ok(vec![second, first])), Ok(second));
}

#[test]
fn resolve_without_candidates_is_fatal() {
    assert_eq!(resolve_listen_address(&Ok(vec![])), Err(Fatal::UnresolvableAddress));
}

#[test]
fn resolve_unparsable_is_fatal() {
    assert_eq!(resolve_listen_address(&Err(())), Err(Fatal::UnparsableAddress));
}

#[test]
fn address_family_and_wildcard_port() {
    let a = v4(0, 0, 0, 0, 0);
    assert!(a.is_ipv4());
    assert!(a.is_wildcard_port());
    let b = loopback_v6(8080);
    assert!(!b.is_ipv4());
    assert!(!b.is_wildcard_port());
}

#[test]
fn fatal_causes_are_described() {
    assert_eq!(Fatal::UnresolvableAddress.describe(), "unable to resolve listener address");
    assert_eq!(Fatal::UnparsableAddress.describe(), "unable to parse listener address");
    assert_eq!(Fatal::BindFailed.describe(), "unable to open TCP listener");
    assert_eq!(Fatal::AcceptFailed.describe(), "socket error while accepting a connection");
    assert_eq!(Fatal::ThreadCountOutOfRange.describe(), "worker thread count out of range");
}

#[test]
fn pool_plan_bounds() {
    assert_eq!(PoolPlan::new(0), Err(Fatal::ThreadCountOutOfRange));
    assert_eq!(PoolPlan::new(1), Ok(PoolPlan { threads: 1 }));
    assert_eq!(PoolPlan::new(4), Ok(PoolPlan { threads: 4 }));
    assert_eq!(MAX_WORKER_THREADS, 32768);
    assert_eq!(PoolPlan::new(32768), Ok(PoolPlan { threads: 32768 }));
    assert_eq!(PoolPlan::new(32769), Err(Fatal::ThreadCountOutOfRange));
}

#[test]
fn default_pool_has_a_worker_per_cpu() {
    let n = default_thread_count();
    assert!(n >= 1);
    let plan = PoolPlan::with_default_threads().unwrap();
    assert_eq!(plan.threads, n);
    assert_eq!(plan.name_prefix(), "gotham-worker-");
}

#[test]
fn drain_waits_for_every_spawned_task() {
    let m: u64 = 5;
    let mut ledger = TaskLedger::new();
    for _ in 0..m {
        assert_eq!(ledger.submit(), Submission::Accepted);
    }
    assert_eq!(ledger.tasks_in_flight(), m);
    ledger.close();
    assert_eq!(ledger.submit(), Submission::Draining);
    assert_eq!(ledger.submitted, m);
    for done in 1..m {
        ledger.finish();
        assert_eq!(ledger.tasks_in_flight(), m - done);
        assert!(!ledger.is_drained());
    }
    ledger.finish();
    assert!(ledger.is_drained());
    assert_eq!(ledger.finished, m);
}

#[test]
fn open_ledger_is_never_drained() {
    let ledger = TaskLedger::new();
    assert!(!ledger.is_drained());
    let mut closed = TaskLedger::new();
    closed.close();
    assert!(closed.is_drained());
}

#[test]
fn nested_spawn_is_taken_while_draining() {
    let mut ledger = TaskLedger::new();
    assert_eq!(ledger.submit(), Submission::Accepted);
    ledger.close();
    assert_eq!(ledger.submit_nested(), Submission::Accepted);
    assert_eq!(ledger.tasks_in_flight(), 2);
    ledger.finish();
    assert!(!ledger.is_drained());
    ledger.finish();
    assert!(ledger.is_drained());
}

#[test]
fn full_counter_saturates() {
    let mut ledger = TaskLedger { open: true, submitted: u64::MAX, finished: 1 };
    assert_eq!(ledger.submit(), Submission::Saturated);
    assert_eq!(ledger.submit_nested(), Submission::Saturated);
    assert_eq!(ledger.submitted, u64::MAX);
}

#[test]
fn finishing_one_task_leaves_the_others_counted() {
    let mut ledger = TaskLedger::new();
    for _ in 0..3 {
        assert_eq!(ledger.submit(), Submission::Accepted);
    }
    ledger.finish();
    assert_eq!(ledger.tasks_in_flight(), 2);
    assert!(ledger.open);
    assert_eq!(ledger.submit(), Submission::Accepted);
}

#[test]
fn startup_binds_announces_and_serves() {
    let requested = v4(127, 0, 0, 1, 0);
    let bound = v4(127, 0, 0, 1, 40123);
    let first_peer = v4(127, 0, 0, 1, 50001);
    let second_peer = v4(127, 0, 0, 1, 50002);
    let mut acceptor = Acceptor::new();
    assert_eq!(acceptor.current_phase(), Phase::Unstarted);
    assert_eq!(acceptor.handle(&Event::Resolved(Ok(vec![requested]))), Action::Bind(requested));
    assert_eq!(acceptor.current_phase(), Phase::AddressResolved(requested));
    assert_eq!(acceptor.handle(&Event::Bound(Some(bound))), Action::Announce(bound));
    assert_eq!(acceptor.handle(&Event::Announced), Action::AcceptNext);
    assert_eq!(acceptor.current_phase(), Phase::Accepting(bound));
    assert_eq!(acceptor.handle(&Event::Accepted(Some(first_peer))), Action::Serve(first_peer));
    assert_eq!(acceptor.current_phase(), Phase::Accepting(bound));
    assert_eq!(acceptor.handle(&Event::Accepted(Some(second_peer))), Action::Serve(second_peer));
    assert_eq!(acceptor.current_phase(), Phase::Accepting(bound));
}

#[test]
fn n_connections_give_n_serve_actions() {
    let bound = v4(0, 0, 0, 0, 9000);
    let mut phase = Phase::Accepting(bound);
    let mut served = 0;
    for port in 1..=10u16 {
        let (next, action) = step(phase, &Event::Accepted(Some(v4(10, 0, 0, 1, port))));
        assert_eq!(action, Action::Serve(v4(10, 0, 0, 1, port)));
        phase = next;
        served += 1;
    }
    assert_eq!(served, 10);
    assert_eq!(phase, Phase::Accepting(bound));
}

#[test]
fn unresolvable_address_aborts_before_binding() {
    let mut acceptor = Acceptor::new();
    let action = acceptor.handle(&Event::Resolved(Ok(vec![])));
    assert_eq!(action, Action::Abort(Fatal::UnresolvableAddress));
    assert_eq!(acceptor.handle(&Event::Resolved(Ok(vec![v4(127, 0, 0, 1, 80)]))), Action::Ignore);
    assert_eq!(acceptor.current_phase(), Phase::Aborted(Fatal::UnresolvableAddress));

    let mut other = Acceptor::new();
    assert_eq!(other.handle(&Event::Resolved(Err(()))), Action::Abort(Fatal::UnparsableAddress));
    assert_eq!(other.handle(&Event::Bound(Some(v4(127, 0, 0, 1, 80)))), Action::Ignore);
}

#[test]
fn bind_failure_is_fatal() {
    let addr = v4(127, 0, 0, 1, 7878);
    let mut acceptor = Acceptor::new();
    assert_eq!(acceptor.handle(&Event::Resolved(Ok(vec![addr]))), Action::Bind(addr));
    assert_eq!(acceptor.handle(&Event::BindFailed), Action::Abort(Fatal::BindFailed));
    assert_eq!(acceptor.current_phase(), Phase::Aborted(Fatal::BindFailed));
    assert_eq!(acceptor.handle(&Event::Announced), Action::Ignore);
}

#[test]
fn unreadable_local_address_is_fatal() {
    let (phase, action) = step(Phase::AddressResolved(v4(127, 0, 0, 1, 0)), &Event::Bound(None));
    assert_eq!(phase, Phase::Aborted(Fatal::LocalAddressUnavailable));
    assert_eq!(action, Action::Abort(Fatal::LocalAddressUnavailable));
}

#[test]
fn accept_errors_are_fatal() {
    let bound = v4(127, 0, 0, 1, 7878);
    let (phase, action) = step(Phase::Accepting(bound), &Event::AcceptFailed);
    assert_eq!(phase, Phase::Aborted(Fatal::AcceptFailed));
    assert_eq!(action, Action::Abort(Fatal::AcceptFailed));
}

#[test]
fn unreadable_peer_drops_only_that_connection() {
    let bound = v4(127, 0, 0, 1, 7878);
    let peer = v4(10, 0, 0, 9, 4444);
    let mut acceptor = Acceptor::new();
    assert_eq!(acceptor.handle(&Event::Resolved(Ok(vec![bound]))), Action::Bind(bound));
    assert_eq!(acceptor.handle(&Event::Bound(Some(bound))), Action::Announce(bound));
    assert_eq!(acceptor.handle(&Event::Announced), Action::AcceptNext);
    assert_eq!(acceptor.handle(&Event::Accepted(None)), Action::AcceptNext);
    assert_eq!(acceptor.current_phase(), Phase::Accepting(bound));
    assert_eq!(acceptor.handle(&Event::Accepted(Some(peer))), Action::Serve(peer));
    assert_eq!(acceptor.current_phase(), Phase::Accepting(bound));
}

#[test]
fn events_out_of_order_are_ignored() {
    let (phase, action) = step(Phase::Unstarted, &Event::Accepted(Some(v4(1, 2, 3, 4, 5))));
    assert_eq!(phase, Phase::Unstarted);
    assert_eq!(action, Action::Ignore);
    let bound = v4(127, 0, 0, 1, 7878);
    let (phase, action) = step(Phase::ListenerBound(bound), &Event::Accepted(Some(bound)));
    assert_eq!(phase, Phase::ListenerBound(bound));
    assert_eq!(action, Action::Ignore);
}

#[test]
fn each_connection_gets_its_own_service() {
    let shared = Arc::new(String::from("handler"));
    let factory = ConnectionFactory::new(shared.clone());
    let a = factory.connect(v4(10, 0, 0, 1, 1000));
    let b = factory.connect(v4(10, 0, 0, 2, 2000));
    assert_eq!(a.peer_address(), v4(10, 0, 0, 1, 1000));
    assert_eq!(b.peer_address(), v4(10, 0, 0, 2, 2000));
    assert!(Arc::ptr_eq(&a.new_handler, &shared));
    assert!(Arc::ptr_eq(&b.new_handler, &shared));
    assert_eq!(Arc::strong_count(&shared), 4);
}

#[test]
fn single_worker_ledger_counts_concurrent_tasks() {
    let plan = PoolPlan::new(1).unwrap();
    assert_eq!(plan.threads, 1);
    let mut ledger = TaskLedger::new();
    assert_eq!(ledger.submit(), Submission::Accepted);
    assert_eq!(ledger.submit_nested(), Submission::Accepted);
    assert_eq!(ledger.submit_nested(), Submission::Accepted);
    assert_eq!(ledger.tasks_in_flight(), 3);
}
