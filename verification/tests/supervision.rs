use ario::supervisor::{Aria2Supervisor, DaemonSupervisor, LifecycleState, SupervisorEvent};

fn lifecycle(events: &[SupervisorEvent]) -> Vec<LifecycleState> {
    events
        .iter()
        .filter_map(|e| match e {
            SupervisorEvent::Lifecycle(s) => Some(s.clone()),
            SupervisorEvent::Notice(_) => None,
        })
        .collect()
}

#[test]
fn five_fast_exits_stop_supervision() {
    let mut s = Aria2Supervisor::new(0);
    for i in 0..4 {
        assert!(!s.on_exit(100, 1000 * i));
    }
    assert!(s.on_exit(2999, 5000));
}

#[test]
fn slow_exit_resets_the_fast_exit_count() {
    let mut s = Aria2Supervisor::new(0);
    for i in 0..4 {
        assert!(!s.on_exit(100, i));
    }
    assert!(!s.on_exit(3000, 10));
    assert_eq!(s.consecutive_fast_exits, 0);
    assert_eq!(s.next_spawn_ms, 2010);
    assert!(!s.spawn_due(false, 2009));
    assert!(s.spawn_due(false, 2010));
    assert!(!s.spawn_due(true, 5000));
}

#[test]
fn five_fast_exits_stop_daemon_retries() {
    let (mut s, first) = DaemonSupervisor::new(0);
    assert!(matches!(first, SupervisorEvent::Lifecycle(LifecycleState::Starting)));
    for i in 0..4u64 {
        let (events, stop) = s.on_child_exit(10, i * 100, "/tmp/log");
        assert!(!stop);
        assert_eq!(lifecycle(&events), vec![LifecycleState::Retrying]);
    }
    let (events, stop) = s.on_child_exit(10, 500, "/tmp/log");
    assert!(stop);
    assert_eq!(
        lifecycle(&events),
        vec![LifecycleState::Failed(
            "ario_daemon crash-looping. Check /tmp/log".into()
        )]
    );
}

#[test]
fn slow_readiness_is_reported_once_and_recovers() {
    let (mut s, _) = DaemonSupervisor::new(0);
    let started = s.on_spawned(1000);
    assert!(matches!(started, SupervisorEvent::Lifecycle(LifecycleState::Starting)));
    assert!(s.on_health(false, 3000, "/l").is_empty());
    let late = s.on_health(false, 6000, "/l");
    assert_eq!(late.len(), 2);
    assert!(s.on_health(false, 7000, "/l").is_empty());
    assert_eq!(
        lifecycle(&s.on_health(true, 8000, "/l")),
        vec![LifecycleState::Connected]
    );
    assert!(s.on_health(true, 8100, "/l").is_empty());
    assert_eq!(
        lifecycle(&s.on_health(false, 8200, "/l")),
        vec![LifecycleState::Retrying]
    );
}

#[test]
fn spawn_failures_are_noticed_at_most_every_ten_seconds() {
    let (mut s, _) = DaemonSupervisor::new(0);
    let first = s.on_spawn_failed(0, "boom", "/l");
    assert_eq!(first.len(), 2);
    match &first[0] {
        SupervisorEvent::Notice(m) => assert_eq!(m, "failed to start ario_daemon: boom. Check /l"),
        _ => panic!("expected a notice"),
    }
    assert_eq!(s.on_spawn_failed(2000, "boom", "/l").len(), 1);
    assert_eq!(s.on_spawn_failed(10000, "boom", "/l").len(), 2);
    assert!(s.spawn_due(false, false, 12000));
    assert!(!s.spawn_due(false, false, 11999));
}
