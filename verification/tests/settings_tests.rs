use ai_pod::settings::{build_merged_settings, hook_command, render_settings, ConfigShapeError};
use ai_pod::config::HomeDirError;

fn merged_text(host: Option<&String>, port: u16) -> String {
    let map = build_merged_settings(host, port).unwrap();
    render_settings(&map)
}

#[test]
fn runtime_settings_contains_stop_hook() {
    let content = merged_text(None, 9876);
    let json: serde_json::Value = serde_json::from_str(&content).unwrap();

    let stop = &json["hooks"]["Stop"];
    assert!(stop.is_array(), "hooks.Stop should be an array");
    let cmd = stop[0]["hooks"][0]["command"].as_str().unwrap();
    assert!(cmd.contains("9876"));
    assert!(cmd.contains("host.containers.internal"));
}

#[test]
fn runtime_settings_uses_correct_port() {
    let content = merged_text(None, 1234);
    assert!(content.contains("1234"));
    assert!(!content.contains("9876"));
}

#[test]
fn runtime_settings_preserves_existing_keys() {
    let existing = String::from("{\"theme\": \"dark\", \"verbosity\": \"verbose\"}");
    let content = merged_text(Some(&existing), 9876);
    let json: serde_json::Value = serde_json::from_str(&content).unwrap();
    assert_eq!(json["theme"], "dark");
    assert_eq!(json["verbosity"], "verbose");
}

#[test]
fn merged_settings_with_theme_and_port() {
    let existing = String::from("{\"theme\": \"dark\"}");
    let content = merged_text(Some(&existing), 9876);
    let json: serde_json::Value = serde_json::from_str(&content).unwrap();
    assert_eq!(json["theme"], "dark");
    let cmd = json["hooks"]["Stop"][0]["hooks"][0]["command"].as_str().unwrap();
    assert!(cmd.contains("9876"));
    assert!(cmd.contains("host.containers.internal"));
}

#[test]
fn merged_settings_hook_entry_shape() {
    let content = merged_text(None, 9876);
    let json: serde_json::Value = serde_json::from_str(&content).unwrap();
    let entry = &json["hooks"]["Stop"][0];
    assert_eq!(entry["matcher"], "*");
    assert_eq!(entry["hooks"][0]["type"], "command");
    assert_eq!(
        entry["hooks"][0]["command"].as_str().unwrap(),
        hook_command(9876)
    );
}

#[test]
fn merging_fails_when_root_is_an_array() {
    let existing = String::from("[1, 2, 3]");
    let r = build_merged_settings(Some(&existing), 9876);
    assert_eq!(r.unwrap_err(), ConfigShapeError::RootNotObject);
}

#[test]
fn merging_fails_when_root_is_a_string() {
    let existing = String::from("\"just a string\"");
    let r = build_merged_settings(Some(&existing), 9876);
    assert_eq!(r.unwrap_err(), ConfigShapeError::RootNotObject);
}

#[test]
fn merging_fails_when_hooks_is_not_an_object() {
    let existing = String::from("{\"hooks\": 5}");
    let r = build_merged_settings(Some(&existing), 9876);
    assert_eq!(r.unwrap_err(), ConfigShapeError::HooksNotObject);
}

#[test]
fn malformed_settings_count_as_empty() {
    let existing = String::from("this is not json {");
    let content = merged_text(Some(&existing), 9876);
    let json: serde_json::Value = serde_json::from_str(&content).unwrap();
    assert!(json["hooks"]["Stop"].is_array());
}

#[test]
fn existing_hook_entries_are_kept() {
    let existing =
        String::from("{\"hooks\": {\"PreToolUse\": [{\"matcher\": \"Bash\"}], \"Stop\": \"old\"}}");
    let content = merged_text(Some(&existing), 9876);
    let json: serde_json::Value = serde_json::from_str(&content).unwrap();
    // Other hook entries survive; the Stop entry is overwritten.
    assert_eq!(json["hooks"]["PreToolUse"][0]["matcher"], "Bash");
    assert!(json["hooks"]["Stop"].is_array());
}

#[test]
fn hook_command_exact_text() {
    assert_eq!(
        hook_command(9876),
        "curl -sf -X POST http://host.containers.internal:9876/notify || true"
    );
}

#[test]
fn config_shape_error_message() {
    assert_eq!(
        ConfigShapeError::RootNotObject.message(),
        "settings.json is not an object"
    );
    assert_eq!(ConfigShapeError::HooksNotObject.message(), "hooks is not an object");
}

#[test]
fn home_dir_error_message() {
    assert_eq!(HomeDirError.message(), "Could not determine home directory");
}
