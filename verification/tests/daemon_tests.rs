use ai_pod::daemon::{
    classify_daemon, ensure_server_action, status_line, stop_server_plan, DaemonStatus,
    EnsureAction,
};

#[test]
fn no_pid_file_means_not_running() {
    let status = classify_daemon(None, false);
    assert!(matches!(status, DaemonStatus::NotRunning));
}

#[test]
fn live_pid_means_running() {
    let status = classify_daemon(Some(42), true);
    assert!(matches!(status, DaemonStatus::Running { pid: 42 }));
}

#[test]
fn dead_pid_means_stale() {
    let status = classify_daemon(Some(42), false);
    assert!(matches!(status, DaemonStatus::Stale { pid: 42 }));
}

#[test]
fn ensure_on_running_daemon_is_a_no_op() {
    let status = classify_daemon(Some(42), true);
    let action = ensure_server_action(&status);
    assert!(matches!(action, EnsureAction::AlreadyRunning { pid: 42 }));
}

#[test]
fn ensure_spawns_on_stale_pid_file() {
    let status = classify_daemon(Some(42), false);
    assert!(matches!(ensure_server_action(&status), EnsureAction::SpawnNew));
}

#[test]
fn ensure_spawns_on_fresh_system() {
    let status = classify_daemon(None, false);
    assert!(matches!(ensure_server_action(&status), EnsureAction::SpawnNew));
}

#[test]
fn ensure_twice_leaves_one_daemon() {
    // First call: nothing running, so it spawns pid 100 and records it.
    let first = ensure_server_action(&classify_daemon(None, false));
    assert!(matches!(first, EnsureAction::SpawnNew));
    let recorded_pid = 100u64;
    // Second call in quick succession observes the PID file the first call
    // wrote and the daemon it spawned still alive: it must not spawn again.
    let second = ensure_server_action(&classify_daemon(Some(recorded_pid), true));
    assert!(matches!(second, EnsureAction::AlreadyRunning { pid: 100 }));
}

#[test]
fn stop_on_running_daemon_signals_and_removes() {
    let plan = stop_server_plan(&DaemonStatus::Running { pid: 7 });
    assert_eq!(plan.signal_pid, Some(7));
    assert!(plan.remove_pid_file);
}

#[test]
fn stop_on_dead_process_removes_file_and_succeeds() {
    // A PID file naming a dead process: nothing to signal, the file goes,
    // and the operation is a success by construction (it returns a plan,
    // never an error).
    let plan = stop_server_plan(&DaemonStatus::Stale { pid: 7 });
    assert_eq!(plan.signal_pid, None);
    assert!(plan.remove_pid_file);
}

#[test]
fn stop_with_no_pid_file_does_nothing() {
    let plan = stop_server_plan(&DaemonStatus::NotRunning);
    assert_eq!(plan.signal_pid, None);
    assert!(!plan.remove_pid_file);
}

#[test]
fn status_on_fresh_system_reports_not_running() {
    let status = classify_daemon(None, false);
    assert_eq!(status_line(&status, 9876), "not running");
}

#[test]
fn status_reports_running_with_pid_and_port() {
    let line = status_line(&DaemonStatus::Running { pid: 42 }, 9876);
    assert_eq!(line, "running (pid 42, port 9876)");
}

#[test]
fn status_reports_stale_pid_file() {
    let line = status_line(&DaemonStatus::Stale { pid: 42 }, 9876);
    assert_eq!(line, "stale pid file (process 42 not found)");
}
