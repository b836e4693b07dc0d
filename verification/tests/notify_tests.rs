use ai_pod::notify::{choose_backend, escape_quotes, osascript_script, NotifyBackend};

#[test]
fn osascript_script_escapes_double_quotes() {
    let title = r#"Hello "world""#;
    let message = r#"Done "successfully""#;
    let escaped_title = title.replace('"', "\\\"");
    let escaped_message = message.replace('"', "\\\"");
    let script = format!(
        "display notification \"{}\" with title \"{}\"",
        escaped_message, escaped_title,
    );
    // The raw quote characters should not appear unescaped inside the script
    // (after the fixed keyword portions)
    let body = script
        .trim_start_matches("display notification \"")
        .to_string();
    assert!(!body.contains("\"world\""));
    assert!(body.contains("\\\"world\\\""));
}

#[test]
fn library_script_matches_hand_escaped_form() {
    let title = r#"Hello "world""#;
    let message = r#"Done "successfully""#;
    let expected = format!(
        "display notification \"{}\" with title \"{}\"",
        message.replace('"', "\\\""),
        title.replace('"', "\\\"")
    );
    assert_eq!(osascript_script(title, message), expected);
}

#[test]
fn escape_quotes_inserts_backslashes() {
    assert_eq!(escape_quotes(r#"a"b"#), "a\\\"b");
    assert_eq!(escape_quotes("plain"), "plain");
    assert_eq!(escape_quotes(""), "");
    assert_eq!(escape_quotes("\"\""), "\\\"\\\"");
}

#[test]
fn script_with_empty_strings() {
    assert_eq!(
        osascript_script("", ""),
        "display notification \"\" with title \"\""
    );
}

#[test]
fn backend_prefers_native_notifier() {
    assert!(matches!(choose_backend(true, true), NotifyBackend::OsaScript));
    assert!(matches!(choose_backend(true, false), NotifyBackend::OsaScript));
}

#[test]
fn backend_falls_back_to_notify_send() {
    assert!(matches!(choose_backend(false, true), NotifyBackend::NotifySend));
}

#[test]
fn backend_degrades_to_unavailable() {
    assert!(matches!(choose_backend(false, false), NotifyBackend::Unavailable));
}
