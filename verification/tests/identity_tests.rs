use ai_pod::identity::{derive_identity, generate_container_name, generate_volume_name};

#[test]
fn container_name_is_deterministic() {
    let path = "/home/user/myproject";
    assert_eq!(generate_container_name(path), generate_container_name(path));
}

#[test]
fn container_name_starts_with_claude() {
    let name = generate_container_name("/home/user/myproject");
    assert!(name.starts_with("ai-pod-"));
}

#[test]
fn container_name_has_expected_length() {
    // "ai-pod-" (7) + hex of 6 bytes (12 chars) = 19
    let name = generate_container_name("/home/user/myproject");
    assert_eq!(name.len(), 19);
}

#[test]
fn container_name_differs_for_different_paths() {
    let a = generate_container_name("/home/user/project-a");
    let b = generate_container_name("/home/user/project-b");
    assert_ne!(a, b);
}

#[test]
fn volume_name_matches_container_hash() {
    let path = "/home/user/myproject";
    let container = generate_container_name(path);
    let volume = generate_volume_name(path);
    // Volume name should be container name + "-home"
    assert_eq!(volume, format!("{}-home", container));
}

#[test]
fn volume_name_differs_for_different_paths() {
    let a = generate_volume_name("/home/user/project-a");
    let b = generate_volume_name("/home/user/project-b");
    assert_ne!(a, b);
}

#[test]
fn container_name_digest_part_is_lowercase_hex() {
    let name = generate_container_name("/home/user/myproject");
    let digest = &name["ai-pod-".len()..];
    assert_eq!(digest.len(), 12);
    assert!(digest
        .chars()
        .all(|c| c.is_ascii_digit() || ('a'..='f').contains(&c)));
}

#[test]
fn derive_identity_returns_both_names() {
    let id = derive_identity("/w/proj-a");
    assert_eq!(id.container_name, generate_container_name("/w/proj-a"));
    assert_eq!(id.volume_name, generate_volume_name("/w/proj-a"));
}

#[test]
fn distinct_workspaces_never_share_names() {
    let a = derive_identity("/w/proj-a");
    let b = derive_identity("/w/proj-b");
    assert_ne!(a.container_name, b.container_name);
    assert_ne!(a.volume_name, b.volume_name);
    assert_ne!(a.container_name, b.volume_name);
    assert_ne!(a.volume_name, b.container_name);
}
