use ai_pod::update::{is_newer, parse_semver, strip_tag_prefix};

#[test]
fn newer_patch() {
    assert!(is_newer("0.2.2", "0.2.1"));
}

#[test]
fn newer_minor() {
    assert!(is_newer("0.3.0", "0.2.9"));
}

#[test]
fn newer_major() {
    assert!(is_newer("1.0.0", "0.9.9"));
}

#[test]
fn same_version() {
    assert!(!is_newer("0.2.1", "0.2.1"));
}

#[test]
fn older_version() {
    assert!(!is_newer("0.2.0", "0.2.1"));
}

#[test]
fn malformed_versions_are_never_newer() {
    assert!(!is_newer("1.2", "0.0.1"));
    assert!(!is_newer("abc", "0.0.1"));
    assert!(!is_newer("1.0.0", "nonsense"));
    assert!(!is_newer("1.2.3.4", "0.0.1"));
    assert!(!is_newer("", "0.0.1"));
}

#[test]
fn parse_semver_reads_components() {
    assert_eq!(parse_semver("1.22.333"), Some((1, 22, 333)));
    assert_eq!(parse_semver("1.2"), None);
    assert_eq!(parse_semver("a.b.c"), None);
}

#[test]
fn strip_tag_prefix_removes_leading_v() {
    assert_eq!(strip_tag_prefix("v1.2.3"), "1.2.3");
    assert_eq!(strip_tag_prefix("1.2.3"), "1.2.3");
    assert_eq!(strip_tag_prefix("vv2.0.0"), "2.0.0");
}
