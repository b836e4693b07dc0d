//! The notification daemon's lifecycle state machine. The daemon is a
//! singleton background process; the PID file is the sole arbiter of whether
//! one exists. These functions decide, from what was observed on disk and from
//! the process table, what the caller must do; the observations and the
//! actions themselves are process and file work that happens outside the
//! library.
//!
//! A PID file naming a dead process is stale: it is recovered from by
//! respawning, never surfaced as an error.

use vstd::prelude::*;
use vstd::string::StringExecFns;
use crate::strutil::dec_str;
use crate::strutil::u64_to_string;

verus! {

/// What the PID file and a liveness probe say about the daemon.
pub enum DaemonStatus {
    /// The PID file names a process that is alive.
    Running { pid: u64 },
    /// The PID file names a process that is not alive.
    Stale { pid: u64 },
    /// There is no PID file.
    NotRunning,
}

/// Classifies the daemon from the PID file's contents (if the file exists and
/// parses) and from whether that process is alive.
pub fn classify_daemon(pid_file_pid: Option<u64>, alive: bool) -> (r: DaemonStatus)
    ensures
        pid_file_pid is None ==> r is NotRunning,
        pid_file_pid matches Some(p) ==> r == (if alive {
            DaemonStatus::Running { pid: p }
        } else {
            DaemonStatus::Stale { pid: p }
        }),
{
    match pid_file_pid {
        Some(p) => {
            if alive {
                DaemonStatus::Running { pid: p }
            } else {
                DaemonStatus::Stale { pid: p }
            }
        },
        None => DaemonStatus::NotRunning,
    }
}

/// What an `ensure` call must do.
pub enum EnsureAction {
    /// A live daemon already exists; do nothing.
    AlreadyRunning { pid: u64 },
    /// No live daemon exists: spawn a detached server process and write its
    /// identifier into the PID file before returning.
    SpawnNew,
}

/// Whether an `ensure` call, observing this PID file and liveness, spawns a
/// new daemon.
pub open spec fn ensure_spawns(pid_file_pid: Option<u64>, alive: bool) -> bool {
    match pid_file_pid {
        Some(_) => !alive,
        None => true,
    }
}

/// The PID file after an `ensure` call that would have spawned `new_pid`.
pub open spec fn pid_file_after_ensure(
    pid_file_pid: Option<u64>,
    alive: bool,
    new_pid: u64,
) -> Option<u64> {
    if ensure_spawns(pid_file_pid, alive) {
        Some(new_pid)
    } else {
        pid_file_pid
    }
}

/// Decides what an `ensure` call must do: a live daemon is left alone (the
/// common case on repeated invocations); a stale PID file or no PID file
/// leads to a spawn.
pub fn ensure_server_action(status: &DaemonStatus) -> (r: EnsureAction)
    ensures
        status matches DaemonStatus::Running { pid: p } ==> r == (EnsureAction::AlreadyRunning { pid: *p }),
        !(status is Running) ==> r is SpawnNew,
{
    match status {
        DaemonStatus::Running { pid } => EnsureAction::AlreadyRunning { pid: *pid },
        DaemonStatus::Stale { .. } => EnsureAction::SpawnNew,
        DaemonStatus::NotRunning => EnsureAction::SpawnNew,
    }
}

/// Law: deciding from a classified observation spawns exactly when the PID
/// file names no live process.
pub proof fn lemma_ensure_action_matches_spawns(pid_file_pid: Option<u64>, alive: bool)
    ensures
        ensure_spawns(pid_file_pid, alive) <==> !(pid_file_pid matches Some(_) && alive),
{
}

/// Law: `ensure` is idempotent. After one call — whichever daemon it found or
/// spawned — a second call that observes the daemon the first call left
/// behind, still alive, spawns nothing and leaves the PID file unchanged: one
/// live daemon, one consistent PID file entry.
pub proof fn lemma_ensure_server_idempotent(
    pid_file_pid: Option<u64>,
    alive: bool,
    new_pid: u64,
    later_pid: u64,
)
    ensures
        !ensure_spawns(pid_file_after_ensure(pid_file_pid, alive, new_pid), true),
        pid_file_after_ensure(pid_file_after_ensure(pid_file_pid, alive, new_pid), true, later_pid)
            == pid_file_after_ensure(pid_file_pid, alive, new_pid),
{
}

/// What a `stop` call must do. A `stop` always succeeds: finding nothing to
/// stop is success, not an error.
pub struct StopPlan {
    /// Send a termination signal to this process, when the daemon is alive.
    pub signal_pid: Option<u64>,
    /// Remove the PID file: done whenever one exists, live process or not.
    pub remove_pid_file: bool,
}

/// Decides what a `stop` call must do: signal only a live daemon, and remove
/// the PID file whether the process it named was alive, dead, or absent.
pub fn stop_server_plan(status: &DaemonStatus) -> (r: StopPlan)
    ensures
        r.signal_pid is Some <==> status is Running,
        status matches DaemonStatus::Running { pid: p } ==> r.signal_pid == Some(*p),
        r.remove_pid_file == !(status is NotRunning),
{
    match status {
        DaemonStatus::Running { pid } => StopPlan { signal_pid: Some(*pid), remove_pid_file: true },
        DaemonStatus::Stale { .. } => StopPlan { signal_pid: None, remove_pid_file: true },
        DaemonStatus::NotRunning => StopPlan { signal_pid: None, remove_pid_file: false },
    }
}

/// Law: a plan decided against a stale PID file — one meeting the stop
/// contract for that observation — signals nothing and removes the file.
/// Recovery, not an error.
pub proof fn lemma_stop_stale_recovers(plan: StopPlan, pid: u64)
    requires
        plan.signal_pid is Some <==> (DaemonStatus::Stale { pid }) is Running,
        plan.remove_pid_file == !((DaemonStatus::Stale { pid }) is NotRunning),
    ensures
        plan.signal_pid is None,
        plan.remove_pid_file,
{
}

/// The status report: an observation-only operation.
pub open spec fn status_line_text(status: DaemonStatus, port: u16) -> Seq<char> {
    match status {
        DaemonStatus::NotRunning => "not running"@,
        DaemonStatus::Running { pid } => "running (pid "@ + dec_str(pid as nat) + ", port "@
            + dec_str(port as nat) + ")"@,
        DaemonStatus::Stale { pid } => "stale pid file (process "@ + dec_str(pid as nat)
            + " not found)"@,
    }
}

/// Renders the status line. This is a pure function of the observation: a
/// status query has no side effects.
pub fn status_line(status: &DaemonStatus, port: u16) -> (r: String)
    ensures
        r@ == status_line_text(*status, port),
{
    match status {
        DaemonStatus::NotRunning => "not running".to_owned(),
        DaemonStatus::Running { pid } => {
            let mut s = "running (pid ".to_owned();
            let pid_digits = u64_to_string(*pid);
            s.append(pid_digits.as_str());
            s.append(", port ");
            let port_digits = u64_to_string(port as u64);
            s.append(port_digits.as_str());
            s.append(")");
            s
        },
        DaemonStatus::Stale { pid } => {
            let mut s = "stale pid file (process ".to_owned();
            let pid_digits = u64_to_string(*pid);
            s.append(pid_digits.as_str());
            s.append(" not found)");
            s
        },
    }
}

/// Law: on a fresh system — no PID file — the classification is `NotRunning`
/// and the status report reads `not running`.
pub proof fn lemma_status_fresh_system(port: u16)
    ensures
        status_line_text(DaemonStatus::NotRunning, port) == "not running"@,
{
}

} // verus!
