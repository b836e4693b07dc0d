//! The command-line surface, as plain data: the subcommand and the global
//! flags. Argument parsing itself happens outside the library and hands in a
//! value of these types.

use vstd::prelude::*;

verus! {

/// The subcommands: build only, serve/stop/query the notification daemon,
/// scaffold a workspace customization file, list containers, clean one
/// workspace, or run a one-off command. No subcommand means an interactive
/// launch.
pub enum Command {
    /// Build the container image only.
    Build,
    /// Run the notification server (internal use).
    ServeNotifications,
    /// Stop the notification daemon.
    StopServer,
    /// Show notification daemon status.
    ServerStatus,
    /// Create the workspace's customization file for editing.
    Init { workdir: Option<String> },
    /// List every container this tool manages.
    List,
    /// Remove the container and volume for a workspace.
    Clean { workdir: Option<String> },
    /// Run a one-off command in the workspace's container.
    Run { command: String, args: Vec<String> },
}

/// The parsed invocation.
pub struct Cli {
    pub command: Option<Command>,
    /// Skip credential file scanning.
    pub no_credential_check: bool,
    /// Force image rebuild.
    pub rebuild: bool,
    /// Override workspace directory; the current directory otherwise.
    pub workdir: Option<String>,
    /// Notification server port.
    pub notify_port: u16,
}

/// The default notification port.
pub const DEFAULT_NOTIFY_PORT: u16 = 9876;

impl Default for Cli {
    /// An invocation with no subcommand and every flag at its default.
    fn default() -> (r: Cli)
        ensures
            r.command is None,
            !r.no_credential_check,
            !r.rebuild,
            r.workdir is None,
            r.notify_port == DEFAULT_NOTIFY_PORT,
    {
        Cli {
            command: None,
            no_credential_check: false,
            rebuild: false,
            workdir: None,
            notify_port: DEFAULT_NOTIFY_PORT,
        }
    }
}

} // verus!
