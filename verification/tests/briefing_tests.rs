use ai_pod::briefing::{container_preamble, merge_briefing};

#[test]
fn runtime_claude_md_contains_container_preamble() {
    let content = merge_briefing(None);
    assert!(content.contains("host.containers.internal"));
    assert!(content.contains("Podman container"));
}

#[test]
fn runtime_claude_md_appends_existing_claude_md() {
    let existing = String::from("# My Rules\nAlways use Rust.\n");
    let content = merge_briefing(Some(&existing));
    assert!(content.contains("host.containers.internal"));
    assert!(content.contains("My Rules"));
    assert!(content.contains("Always use Rust."));
}

#[test]
fn runtime_claude_md_without_existing_file_does_not_error() {
    let content = merge_briefing(None);
    assert!(!content.is_empty());
}

#[test]
fn merged_briefing_puts_preamble_first() {
    let existing = String::from("CUSTOM MARKER");
    let content = merge_briefing(Some(&existing));
    assert!(content.starts_with(container_preamble()));
    assert!(content.contains("CUSTOM MARKER"));
    let preamble_at = content.find("# Container Environment").unwrap();
    let marker_at = content.find("CUSTOM MARKER").unwrap();
    assert!(preamble_at < marker_at);
}

#[test]
fn merged_briefing_without_host_file_is_preamble_alone() {
    assert_eq!(merge_briefing(None), container_preamble());
}
