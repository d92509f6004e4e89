use monitor::watcher::{Action, Event, Lifecycle, LogRecord, ProbeOutcome, StartupFault, Watcher};

fn running(url: &str) -> Watcher {
    let mut w = Watcher::new(url.to_string());
    assert_eq!(w.step(Event::TasksSpawned), Action::Wait { seconds: 1 });
    w
}

#[test]
fn new_watcher_is_starting() {
    let w = Watcher::new("http://example.com".to_string());
    assert_eq!(w.url(), "http://example.com");
    assert_eq!(w.state(), Lifecycle::Starting);
    assert!(!w.is_probing());
    assert_eq!(w.interval(), 1);
    assert_eq!(w.latency().capacity(), 30);
    assert_eq!(w.latency().min(), 0);
    assert_eq!(w.latency().max(), 1000);
    assert_eq!(w.latency().len(), 0);
}

#[test]
fn probe_loop_records_successes_and_failures() {
    let mut w = running("http://example.com");
    let outcomes = [
        ProbeOutcome::Success { latency_ms: 50 },
        ProbeOutcome::Failure,
        ProbeOutcome::Success { latency_ms: 20 },
    ];
    for (i, o) in outcomes.iter().enumerate() {
        assert_eq!(w.step(Event::WaitElapsed), Action::Probe);
        let at = (i as u64 + 1) * 1000;
        assert_eq!(w.step(Event::ProbeFinished { at, outcome: *o }), Action::Wait { seconds: 1 });
    }
    let lat: Vec<u64> = w.latency().snapshot().iter().map(|s| s.value).collect();
    assert_eq!(lat, vec![50, 20]);
    let log = w.take_log();
    assert_eq!(
        log,
        vec![
            LogRecord { at: 1000, outcome: ProbeOutcome::Success { latency_ms: 50 } },
            LogRecord { at: 2000, outcome: ProbeOutcome::Failure },
            LogRecord { at: 3000, outcome: ProbeOutcome::Success { latency_ms: 20 } },
        ]
    );
    assert!(w.take_log().is_empty());
}

#[test]
fn interrupt_during_long_wait_stops_without_probing() {
    let mut w = Watcher::new("http://example.com".to_string());
    assert_eq!(w.step(Event::ControlUpdate(60)), Action::Nothing);
    assert_eq!(w.step(Event::TasksSpawned), Action::Wait { seconds: 60 });
    assert_eq!(w.step(Event::Interrupt), Action::CancelTasks);
    assert_eq!(w.state(), Lifecycle::ShuttingDown);
    assert_eq!(w.step(Event::WaitElapsed), Action::Nothing);
    assert_eq!(w.step(Event::TasksStopped), Action::Release);
    assert_eq!(w.state(), Lifecycle::Stopped);
    assert_eq!(w.step(Event::WaitElapsed), Action::Nothing);
    assert_eq!(w.step(Event::TasksSpawned), Action::Nothing);
    assert_eq!(w.state(), Lifecycle::Stopped);
    assert!(w.take_log().is_empty());
}

#[test]
fn interrupt_during_probe_drops_its_outcome() {
    let mut w = running("http://example.com");
    assert_eq!(w.step(Event::WaitElapsed), Action::Probe);
    assert_eq!(w.step(Event::Interrupt), Action::CancelTasks);
    assert!(!w.is_probing());
    let done = Event::ProbeFinished { at: 5, outcome: ProbeOutcome::Success { latency_ms: 9 } };
    assert_eq!(w.step(done), Action::Nothing);
    assert_eq!(w.latency().len(), 0);
    assert!(w.take_log().is_empty());
}

#[test]
fn heartbeat_ticks_while_probe_hangs() {
    let mut w = running("http://example.com");
    assert_eq!(w.step(Event::WaitElapsed), Action::Probe);
    for _ in 0..5 {
        assert_eq!(w.step(Event::HeartbeatTick), Action::SignalAlive);
        assert!(w.is_probing());
        assert_eq!(w.state(), Lifecycle::Running);
    }
}

#[test]
fn heartbeat_spawn_failure_is_fatal() {
    let mut w = Watcher::new("http://example.com".to_string());
    assert_eq!(
        w.step(Event::SpawnFailed(StartupFault::Heartbeat)),
        Action::ReportFatal(StartupFault::Heartbeat)
    );
    assert_eq!(w.state(), Lifecycle::Stopped);
    assert_eq!(w.step(Event::TasksSpawned), Action::Nothing);
    assert_eq!(w.step(Event::HeartbeatTick), Action::Nothing);
    assert_eq!(w.state(), Lifecycle::Stopped);
}

#[test]
fn control_update_applies_from_next_wait() {
    let mut w = running("http://example.com");
    assert_eq!(w.step(Event::WaitElapsed), Action::Probe);
    assert_eq!(w.step(Event::ControlUpdate(10)), Action::Nothing);
    assert_eq!(w.step(Event::ControlUpdate(500)), Action::Nothing);
    assert_eq!(w.interval(), 60);
    let done = Event::ProbeFinished { at: 1, outcome: ProbeOutcome::Failure };
    assert_eq!(w.step(done), Action::Wait { seconds: 60 });
    assert_eq!(w.step(Event::ControlUpdate(-4)), Action::Nothing);
    assert_eq!(w.step(Event::WaitElapsed), Action::Probe);
    assert_eq!(w.step(done), Action::Wait { seconds: 1 });
}

#[test]
fn events_out_of_turn_are_ignored() {
    let mut w = Watcher::new("http://example.com".to_string());
    assert_eq!(w.step(Event::WaitElapsed), Action::Nothing);
    assert_eq!(w.step(Event::TasksStopped), Action::Nothing);
    let done = Event::ProbeFinished { at: 1, outcome: ProbeOutcome::Failure };
    assert_eq!(w.step(done), Action::Nothing);
    assert_eq!(w.state(), Lifecycle::Starting);
    assert_eq!(w.step(Event::TasksSpawned), Action::Wait { seconds: 1 });
    assert_eq!(w.step(done), Action::Nothing);
    assert_eq!(w.step(Event::WaitElapsed), Action::Probe);
    assert_eq!(w.step(Event::WaitElapsed), Action::Nothing);
    assert!(w.take_log().is_empty());
}

#[test]
fn latency_keeps_last_thirty() {
    let mut w = running("http://example.com");
    for i in 0..40u64 {
        assert_eq!(w.step(Event::WaitElapsed), Action::Probe);
        let done = Event::ProbeFinished { at: i, outcome: ProbeOutcome::Success { latency_ms: i } };
        w.step(done);
    }
    let lat: Vec<u64> = w.latency().snapshot().iter().map(|s| s.value).collect();
    assert_eq!(lat, (10..40).collect::<Vec<u64>>());
    assert_eq!(w.take_log().len(), 40);
}

#[test]
fn probe_loop_spawn_failure_is_fatal() {
    let mut w = Watcher::new("u".to_string());
    assert_eq!(
        w.step(Event::SpawnFailed(StartupFault::ProbeLoop)),
        Action::ReportFatal(StartupFault::ProbeLoop)
    );
    assert_eq!(w.state(), Lifecycle::Stopped);
}
