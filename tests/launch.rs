use sidecar_supervisor::launch::{health_url, plan_launch, resolve_home, LaunchMode, WorkdirBase};
use sidecar_supervisor::relay::{relay_action, LogLevel, OutputKind};
use sidecar_supervisor::status::StatusError;

#[test]
fn health_url_names_port() {
    assert_eq!(health_url(8080), "http://localhost:8080/v1/models");
    assert_eq!(health_url(0), "http://localhost:0/v1/models");
    assert_eq!(health_url(65535), "http://localhost:65535/v1/models");
}

#[test]
fn development_launch() {
    let plan = plan_launch(8081, LaunchMode::Development, Some("/home/u".to_string()), None);
    assert_eq!(plan.program, "cargo");
    assert!(!plan.bundled);
    assert_eq!(plan.args, vec!["run", "--release", "--", "serve", "--port", "8081"]);
    assert_eq!(plan.workdir_base, WorkdirBase::ParentOfCurrentDir);
    assert_eq!(plan.workdir, vec!["ai-gateway"]);
    assert_eq!(plan.home, None);
}

#[test]
fn production_launch() {
    let plan = plan_launch(8085, LaunchMode::Production, None, Some("/Users/me".to_string()));
    assert_eq!(plan.program, "ai-gateway");
    assert!(plan.bundled);
    assert_eq!(plan.args, vec!["serve", "--port", "8085"]);
    assert_eq!(plan.workdir_base, WorkdirBase::ResourceDir);
    assert_eq!(plan.workdir, vec!["_up_", "ai-gateway"]);
    assert_eq!(plan.home, Some("/Users/me".to_string()));
}

#[test]
fn home_fallbacks() {
    assert_eq!(resolve_home(Some("/a".to_string()), Some("/b".to_string())), "/a");
    assert_eq!(resolve_home(None, Some("/b".to_string())), "/b");
    assert_eq!(resolve_home(None, None), "/tmp");
}

#[test]
fn status_messages() {
    assert_eq!(StatusError::StartupTimeout.message(), "Backend failed to start within timeout");
    assert_eq!(StatusError::Restarting(2).message(), "Backend crashed, restarting... (attempt 2)");
    assert_eq!(StatusError::Restarting(12).message(), "Backend crashed, restarting... (attempt 12)");
    assert_eq!(StatusError::RestartLimit.message(), "Backend restart limit reached");
    assert_eq!(StatusError::LaunchFailed("no binary".to_string()).message(), "no binary");
    assert_eq!(StatusError::RestartFailed("no binary".to_string()).message(), "Failed to restart: no binary");
}

#[test]
fn relay_levels() {
    assert_eq!(relay_action(OutputKind::Stdout).level, Some(LogLevel::Info));
    assert_eq!(relay_action(OutputKind::Stderr).level, Some(LogLevel::Error));
    assert_eq!(relay_action(OutputKind::SpawnError).level, Some(LogLevel::Error));
    assert_eq!(relay_action(OutputKind::Terminated).level, Some(LogLevel::Warn));
    assert!(relay_action(OutputKind::Terminated).last);
    assert!(!relay_action(OutputKind::Stdout).last);
    assert_eq!(relay_action(OutputKind::Other).level, None);
}
