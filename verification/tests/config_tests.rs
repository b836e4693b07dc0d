use ai_pod::cli::{Cli, DEFAULT_NOTIFY_PORT};
use ai_pod::config::AppConfig;

#[test]
fn all_paths_are_under_config_dir() {
    let config = AppConfig::from_home(String::from("/home/u"));
    assert!(config.pid_file.starts_with(&config.config_dir));
    assert!(config.log_file.starts_with(&config.config_dir));
    assert!(config.runtime_settings.starts_with(&config.config_dir));
    assert!(config.runtime_claude_md.starts_with(&config.config_dir));
}

#[test]
fn config_dir_is_under_home() {
    let config = AppConfig::from_home(String::from("/home/u"));
    assert!(config.config_dir.starts_with(&config.home_dir));
}

#[test]
fn claude_settings_path_points_to_settings_json() {
    let config = AppConfig::from_home(String::from("/home/u"));
    let p = config.claude_settings_path();
    assert!(p.ends_with("settings.json"));
    assert!(p.contains(".agent"));
}

#[test]
fn claude_md_path_points_to_claude_md() {
    let config = AppConfig::from_home(String::from("/home/u"));
    let p = config.claude_md_path();
    assert!(p.ends_with("AGENT.md"));
    assert!(p.contains(".agent"));
}

#[test]
fn config_paths_have_exact_names() {
    let config = AppConfig::from_home(String::from("/home/u"));
    assert_eq!(config.config_dir, "/home/u/.ai-pod");
    assert_eq!(config.pid_file, "/home/u/.ai-pod/server.pid");
    assert_eq!(config.log_file, "/home/u/.ai-pod/server.log");
    assert_eq!(config.runtime_settings, "/home/u/.ai-pod/runtime-settings.json");
    assert_eq!(config.runtime_claude_md, "/home/u/.ai-pod/runtime-AGENT.md");
}

#[test]
fn default_cli_launches_interactively_on_default_port() {
    let cli = Cli::default();
    assert!(cli.command.is_none());
    assert!(!cli.no_credential_check);
    assert!(!cli.rebuild);
    assert!(cli.workdir.is_none());
    assert_eq!(cli.notify_port, DEFAULT_NOTIFY_PORT);
    assert_eq!(cli.notify_port, 9876);
}
