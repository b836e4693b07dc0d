//! Per-user configuration paths: everything the tool persists lives in one
//! private directory under the operator's home directory.

use vstd::prelude::*;
use vstd::string::StringExecFns;

verus! {

/// The home directory could not be determined from the environment.
#[derive(Debug, PartialEq, Eq, Structural)]
pub struct HomeDirError;

impl HomeDirError {
    /// The actionable line shown when configuration cannot be located.
    pub fn message(&self) -> (r: &'static str)
        ensures
            r@ == "Could not determine home directory"@,
    {
        "Could not determine home directory"
    }
}

/// Relies on dirs::home_dir: the platform's home directory, if the system
/// reports one. The result depends on the environment, so nothing is assumed
/// about its value.
#[verifier::external_body]
fn host_home_dir() -> (r: Option<String>) {
    dirs::home_dir().map(|p| p.to_string_lossy().into_owned())
}

pub open spec fn config_dir_of(home: Seq<char>) -> Seq<char> {
    home + "/.ai-pod"@
}

/// All paths are fixed functions of the home directory.
pub open spec fn config_wf(c: AppConfig) -> bool {
    &&& c.config_dir@ == config_dir_of(c.home_dir@)
    &&& c.pid_file@ == config_dir_of(c.home_dir@) + "/server.pid"@
    &&& c.log_file@ == config_dir_of(c.home_dir@) + "/server.log"@
    &&& c.runtime_settings@ == config_dir_of(c.home_dir@) + "/runtime-settings.json"@
    &&& c.runtime_claude_md@ == config_dir_of(c.home_dir@) + "/runtime-AGENT.md"@
}

pub struct AppConfig {
    pub config_dir: String,
    pub pid_file: String,
    pub log_file: String,
    pub runtime_settings: String,
    pub runtime_claude_md: String,
    pub home_dir: String,
}

impl AppConfig {
    /// Builds the configuration for a given home directory.
    pub fn from_home(home: String) -> (c: AppConfig)
        ensures
            config_wf(c),
            c.home_dir@ == home@,
    {
        let config_dir = home.clone().concat("/.ai-pod");
        AppConfig {
            pid_file: config_dir.clone().concat("/server.pid"),
            log_file: config_dir.clone().concat("/server.log"),
            runtime_settings: config_dir.clone().concat("/runtime-settings.json"),
            runtime_claude_md: config_dir.clone().concat("/runtime-AGENT.md"),
            config_dir,
            home_dir: home,
        }
    }

    /// Resolves the operator's home directory and derives every path from it.
    /// Fails only when the environment reports no home directory.
    pub fn new() -> (r: Result<AppConfig, HomeDirError>)
        ensures
            r matches Ok(c) ==> config_wf(c),
    {
        match host_home_dir() {
            Some(home) => Ok(AppConfig::from_home(home)),
            None => Err(HomeDirError),
        }
    }

    /// The operator's own persisted settings document (a read-only input).
    pub fn claude_settings_path(&self) -> (r: String)
        ensures
            r@ == self.home_dir@ + "/.agent/settings.json"@,
    {
        self.home_dir.clone().concat("/.agent/settings.json")
    }

    /// The operator's own briefing document (a read-only input).
    pub fn claude_md_path(&self) -> (r: String)
        ensures
            r@ == self.home_dir@ + "/.agent/AGENT.md"@,
    {
        self.home_dir.clone().concat("/.agent/AGENT.md")
    }
}

} // verus!
