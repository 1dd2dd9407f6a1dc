use sidecar_supervisor::status::{BackendStatus, StatusError};
use sidecar_supervisor::supervisor::{termination_steps, Command, Event, Phase, ShutdownStep, Supervisor};

fn started(port: u16, pid: u32) -> Supervisor {
    let mut s = Supervisor::new(port);
    assert_eq!(s.step(Event::Start).command, Command::Launch { port });
    let step = s.step(Event::Launched { pid });
    assert_eq!(step.publish, Some(BackendStatus { ready: false, port, error: None }));
    assert_eq!(step.command, Command::Poll { delay_ms: 0 });
    s
}

fn ready(port: u16, pid: u32) -> Supervisor {
    let mut s = started(port, pid);
    let step = s.step(Event::HealthOk);
    assert!(step.show_window);
    assert_eq!(step.command, Command::Poll { delay_ms: 15000 });
    s
}

#[test]
fn ready_on_fifth_poll() {
    let mut s = started(8080, 100);
    let mut published = 0;
    for _ in 0..4 {
        let step = s.step(Event::HealthFailed);
        assert_eq!(step.command, Command::Poll { delay_ms: 2000 });
        if step.publish.is_some() {
            published += 1;
        }
    }
    let step = s.step(Event::HealthOk);
    assert_eq!(step.publish, Some(BackendStatus { ready: true, port: 8080, error: None }));
    assert_eq!(published, 0);
    assert_eq!(s.phase(), Phase::Ready);
    assert_eq!(s.restart_count(), 0);
}

#[test]
fn ready_on_sixtieth_poll() {
    let mut s = started(8080, 100);
    for _ in 0..59 {
        assert!(s.step(Event::HealthFailed).publish.is_none());
    }
    assert_eq!(s.step(Event::HealthOk).publish, Some(BackendStatus { ready: true, port: 8080, error: None }));
    assert_eq!(s.phase(), Phase::Ready);
}

#[test]
fn startup_timeout_after_sixty_polls() {
    let mut s = started(8080, 100);
    let mut events = Vec::new();
    for _ in 0..60 {
        let step = s.step(Event::HealthFailed);
        if let Some(status) = step.publish {
            events.push(status);
            assert!(step.show_window);
            assert_eq!(step.command, Command::Stop);
        }
    }
    assert_eq!(events, vec![BackendStatus { ready: false, port: 8080, error: Some(StatusError::StartupTimeout) }]);
    assert_eq!(s.phase(), Phase::Failed);
    let after = s.step(Event::HealthFailed);
    assert_eq!(after.command, Command::Stop);
    assert!(after.publish.is_none());
}

#[test]
fn steady_state_is_silent() {
    let mut s = ready(8080, 100);
    for _ in 0..10 {
        let step = s.step(Event::HealthOk);
        assert!(step.publish.is_none());
        assert_eq!(step.command, Command::Poll { delay_ms: 5000 });
    }
}

#[test]
fn three_restarts_then_limit() {
    let mut s = ready(8080, 100);
    let mut launches = Vec::new();
    for attempt in 1..=3u32 {
        let step = s.step(Event::HealthFailed);
        assert_eq!(
            step.publish,
            Some(BackendStatus { ready: false, port: 8080, error: Some(StatusError::Restarting(attempt)) })
        );
        if let Command::Launch { port } = step.command {
            launches.push(port);
        }
        let step = s.step(Event::Launched { pid: 200 + attempt });
        assert_eq!(step.command, Command::Poll { delay_ms: 5000 });
        assert_eq!(s.current_pid(), Some(200 + attempt));
        let step = s.step(Event::HealthFailed);
        assert!(step.publish.is_none());
        assert_eq!(step.command, Command::Poll { delay_ms: 5000 });
    }
    let step = s.step(Event::HealthFailed);
    assert_eq!(
        step.publish,
        Some(BackendStatus { ready: false, port: 8080, error: Some(StatusError::RestartLimit) })
    );
    assert_eq!(step.command, Command::Stop);
    assert_eq!(launches, vec![8080, 8080, 8080]);
    assert_eq!(s.restart_count(), 3);
    assert_eq!(s.phase(), Phase::Failed);
    assert_eq!(s.backend_port(), 8080);
}

#[test]
fn confirmed_restart_publishes_ready() {
    let mut s = ready(9000, 1);
    s.step(Event::HealthFailed);
    s.step(Event::Launched { pid: 2 });
    let step = s.step(Event::HealthOk);
    assert_eq!(step.publish, Some(BackendStatus { ready: true, port: 9000, error: None }));
    assert_eq!(s.phase(), Phase::Ready);
}

#[test]
fn failed_relaunch_resumes_monitoring() {
    let mut s = ready(9000, 1);
    s.step(Event::HealthFailed);
    let step = s.step(Event::LaunchFailed { reason: "spawn failed".to_string() });
    assert_eq!(
        step.publish,
        Some(BackendStatus {
            ready: false,
            port: 9000,
            error: Some(StatusError::RestartFailed("spawn failed".to_string())),
        })
    );
    assert_eq!(step.command, Command::Poll { delay_ms: 5000 });
    assert_eq!(s.phase(), Phase::Ready);
}

#[test]
fn first_launch_failure_is_reported() {
    let mut s = Supervisor::new(8080);
    s.step(Event::Start);
    let step = s.step(Event::LaunchFailed { reason: "missing binary".to_string() });
    assert_eq!(
        step.publish,
        Some(BackendStatus {
            ready: false,
            port: 8080,
            error: Some(StatusError::LaunchFailed("missing binary".to_string())),
        })
    );
    assert!(step.show_window);
    assert_eq!(step.command, Command::Stop);
    assert_eq!(s.phase(), Phase::Failed);
}

#[test]
fn shutdown_terminates_tracked_process() {
    let mut s = ready(8080, 4242);
    let steps = s.begin_shutdown(true);
    assert_eq!(
        steps,
        vec![
            ShutdownStep::Graceful { pid: 4242 },
            ShutdownStep::Wait { ms: 500 },
            ShutdownStep::Force { pid: 4242 },
        ]
    );
    assert_eq!(s.current_pid(), None);
    assert!(s.is_shutting_down());
}

#[test]
fn shutdown_without_signals_forces() {
    let mut s = ready(8080, 7);
    assert_eq!(s.begin_shutdown(false), vec![ShutdownStep::Force { pid: 7 }]);
    assert_eq!(termination_steps(9, false), vec![ShutdownStep::Force { pid: 9 }]);
}

#[test]
fn second_shutdown_is_noop() {
    let mut s = ready(8080, 4242);
    assert_eq!(s.begin_shutdown(true).len(), 3);
    assert!(s.begin_shutdown(true).is_empty());
    assert_eq!(s.current_pid(), None);
    let mut idle = Supervisor::new(8080);
    assert!(idle.begin_shutdown(true).is_empty());
}

#[test]
fn no_restart_after_shutdown() {
    let mut s = ready(8080, 1);
    s.begin_shutdown(true);
    let step = s.step(Event::HealthFailed);
    assert_eq!(step.command, Command::Stop);
    assert!(step.publish.is_none());
    assert_eq!(s.restart_count(), 0);
}

#[test]
fn process_spawned_during_shutdown_is_terminated() {
    let mut s = ready(8080, 1);
    s.step(Event::HealthFailed);
    s.begin_shutdown(true);
    let step = s.step(Event::Launched { pid: 77 });
    assert_eq!(step.command, Command::Terminate { pid: 77 });
    assert_eq!(s.current_pid(), None);
}
