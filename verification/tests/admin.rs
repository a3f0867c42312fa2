use linkerd_app::admin::{AdminAction, AdminEvent, AdminLoop, AdminPhase, AdminRunner, Fault};
use linkerd_app::config::AdminSettings;
use linkerd_app::metrics::root_registry;
use linkerd_app::net::{IpAddr, SocketAddr};
use linkerd_app::shutdown::{closer, Closed, Moment};
use std::collections::VecDeque;

fn settings() -> AdminSettings {
    AdminSettings {
        addr: SocketAddr { ip: IpAddr::V4(127, 0, 0, 1), port: 9989 },
        grace_secs: 10,
        metrics_interval_secs: 60,
    }
}

fn started(resolvers: &[&'static str]) -> (AdminLoop<&'static str>, Closed, tacho::Scope) {
    let registry = root_registry();
    let queue: VecDeque<&'static str> = resolvers.iter().cloned().collect();
    let runner = AdminRunner::new(settings(), registry.reporter, queue);
    let (sender, receiver) = closer();
    (runner.run(sender), receiver, registry.scope)
}

fn serving(resolvers: &[&'static str]) -> (AdminLoop<&'static str>, Closed, tacho::Scope) {
    let (mut admin, receiver, scope) = started(resolvers);
    while admin.current_phase() != AdminPhase::Serving {
        admin.step(AdminEvent::Ready);
    }
    (admin, receiver, scope)
}

fn at(secs: u64, nanos: u32) -> Moment {
    Moment { secs, nanos }
}

#[test]
fn run_starts_with_everything_the_runner_held() {
    let (admin, _receiver, _scope) = started(&["e1", "e2"]);
    assert_eq!(admin.current_phase(), AdminPhase::Starting);
    assert!(admin.is_armed());
    assert_eq!(admin.metrics(), "");
}

#[test]
fn startup_launches_resolvers_then_reports_then_binds() {
    let (mut admin, _receiver, _scope) = started(&["e1", "e2", "e3"]);
    assert!(matches!(admin.step(AdminEvent::Ready), AdminAction::LaunchResolver("e1")));
    assert!(matches!(admin.step(AdminEvent::Ready), AdminAction::LaunchResolver("e2")));
    assert!(matches!(admin.step(AdminEvent::Ready), AdminAction::LaunchResolver("e3")));
    assert_eq!(admin.current_phase(), AdminPhase::Starting);
    assert!(matches!(admin.step(AdminEvent::Ready), AdminAction::StartReporting(60)));
    assert_eq!(admin.current_phase(), AdminPhase::Reporting);
    match admin.step(AdminEvent::Ready) {
        AdminAction::Bind(addr) => assert_eq!(addr, settings().addr),
        other => panic!("expected a bind, got {:?}", other),
    }
    assert_eq!(admin.current_phase(), AdminPhase::Binding);
    assert!(matches!(admin.step(AdminEvent::Ready), AdminAction::Accept));
    assert_eq!(admin.current_phase(), AdminPhase::Serving);
}

#[test]
fn startup_without_resolvers_goes_straight_to_reporting() {
    let (mut admin, _receiver, _scope) = started(&[]);
    assert!(matches!(admin.step(AdminEvent::Ready), AdminAction::StartReporting(60)));
}

#[test]
fn failed_bind_ends_the_admin_context() {
    let (mut admin, _receiver, _scope) = started(&[]);
    admin.step(AdminEvent::Ready);
    admin.step(AdminEvent::Ready);
    assert_eq!(admin.current_phase(), AdminPhase::Binding);
    assert!(matches!(admin.step(AdminEvent::BindFailed), AdminAction::Abort(Fault::Bind)));
    assert_eq!(admin.current_phase(), AdminPhase::Stopped);
    assert!(matches!(admin.step(AdminEvent::Ready), AdminAction::Ignore));
    assert!(matches!(admin.step(AdminEvent::Accepted), AdminAction::Ignore));
}

#[test]
fn failed_serve_does_not_stop_the_next_connection() {
    let (mut admin, _receiver, _scope) = serving(&["e1"]);
    assert!(matches!(admin.step(AdminEvent::Accepted), AdminAction::Serve));
    assert!(matches!(admin.step(AdminEvent::ServeFailed), AdminAction::LogServeError));
    assert_eq!(admin.current_phase(), AdminPhase::Serving);
    assert!(admin.is_armed());
    assert!(matches!(admin.step(AdminEvent::Accepted), AdminAction::Serve));
    assert!(matches!(admin.step(AdminEvent::ServeFailed), AdminAction::LogServeError));
    assert!(matches!(admin.step(AdminEvent::Accepted), AdminAction::Serve));
}

#[test]
fn failed_listener_ends_the_admin_context() {
    let (mut admin, _receiver, _scope) = serving(&[]);
    assert!(matches!(
        admin.step(AdminEvent::ListenerFailed),
        AdminAction::Abort(Fault::Listener)
    ));
    assert_eq!(admin.current_phase(), AdminPhase::Stopped);
}

#[test]
fn shutdown_sends_now_plus_grace_once() {
    let (mut admin, mut receiver, _scope) = serving(&[]);
    assert_eq!(receiver.try_recv(), Ok(None));
    match admin.step(AdminEvent::ShutdownRequested(at(100, 5))) {
        AdminAction::Shutdown { deadline, delivered } => {
            assert_eq!(deadline, at(110, 5));
            assert!(delivered);
        }
        other => panic!("expected a shutdown, got {:?}", other),
    }
    assert!(!admin.is_armed());
    assert_eq!(admin.current_phase(), AdminPhase::Serving);
    assert!(matches!(
        admin.step(AdminEvent::ShutdownRequested(at(200, 0))),
        AdminAction::AlreadyRequested
    ));
    assert!(matches!(
        admin.step(AdminEvent::ShutdownRequested(at(300, 0))),
        AdminAction::AlreadyRequested
    ));
    assert_eq!(receiver.try_recv(), Ok(Some(at(110, 5))));
    assert!(matches!(admin.step(AdminEvent::Accepted), AdminAction::Serve));
}

#[test]
fn shutdown_without_a_receiver_is_not_delivered() {
    let (mut admin, receiver, _scope) = serving(&[]);
    drop(receiver);
    match admin.step(AdminEvent::ShutdownRequested(at(1, 0))) {
        AdminAction::Shutdown { deadline, delivered } => {
            assert_eq!(deadline, at(11, 0));
            assert!(!delivered);
        }
        other => panic!("expected a shutdown, got {:?}", other),
    }
    assert!(matches!(
        admin.step(AdminEvent::ShutdownRequested(at(2, 0))),
        AdminAction::AlreadyRequested
    ));
}

#[test]
fn shutdown_with_an_unrepresentable_deadline_keeps_the_latch() {
    let (mut admin, mut receiver, _scope) = serving(&[]);
    assert!(matches!(
        admin.step(AdminEvent::ShutdownRequested(at(u64::MAX, 0))),
        AdminAction::Unrepresentable
    ));
    assert!(admin.is_armed());
    assert_eq!(receiver.try_recv(), Ok(None));
    assert!(matches!(
        admin.step(AdminEvent::ShutdownRequested(at(5, 0))),
        AdminAction::Shutdown { .. }
    ));
    assert_eq!(receiver.try_recv(), Ok(Some(at(15, 0))));
}

#[test]
fn shutdown_before_serving_is_ignored() {
    let (mut admin, mut receiver, _scope) = started(&["e1"]);
    assert!(matches!(
        admin.step(AdminEvent::ShutdownRequested(at(1, 0))),
        AdminAction::Ignore
    ));
    assert!(admin.is_armed());
    assert_eq!(receiver.try_recv(), Ok(None));
}

#[test]
fn ticks_export_one_snapshot_each() {
    let (mut admin, _receiver, scope) = serving(&[]);
    let latency = scope.stat("latency");
    latency.add(3);
    latency.add(4);
    assert!(matches!(admin.step(AdminEvent::Tick), AdminAction::Exported));
    assert!(admin.metrics().contains("l5d:latency_count 2\n"));
    latency.add(9);
    assert!(matches!(admin.step(AdminEvent::Tick), AdminAction::Exported));
    assert!(admin.metrics().contains("l5d:latency_count 1\n"));
    assert!(admin.metrics().contains("l5d:latency_sum 9\n"));
    assert!(matches!(admin.step(AdminEvent::Tick), AdminAction::Exported));
    assert_eq!(admin.metrics(), "l5d:latency_count 0\n");
    assert_eq!(admin.current_phase(), AdminPhase::Serving);
}

#[test]
fn ticks_count_from_the_start_of_reporting() {
    let (mut admin, _receiver, scope) = started(&[]);
    let requests = scope.counter("requests");
    requests.incr(1);
    assert!(matches!(admin.step(AdminEvent::Tick), AdminAction::Ignore));
    assert_eq!(admin.metrics(), "");
    admin.step(AdminEvent::Ready);
    assert_eq!(admin.current_phase(), AdminPhase::Reporting);
    assert!(matches!(admin.step(AdminEvent::Tick), AdminAction::Exported));
    assert_eq!(admin.metrics(), "l5d:requests 1\n");
}
