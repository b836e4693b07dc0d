use ai_pod::credentials::{filter_credential_paths, is_credential_file, is_skipped_dir};

#[test]
fn dot_env_exact_match() {
    assert!(is_credential_file("/project/.env"));
}

#[test]
fn dot_env_local() {
    assert!(is_credential_file("/project/.env.local"));
}

#[test]
fn ssh_private_key() {
    assert!(is_credential_file("/home/user/.ssh/id_rsa"));
}

#[test]
fn pem_extension() {
    assert!(is_credential_file("/certs/server.pem"));
}

#[test]
fn key_extension() {
    assert!(is_credential_file("/keys/private.key"));
}

#[test]
fn p12_extension() {
    assert!(is_credential_file("/certs/bundle.p12"));
}

#[test]
fn aws_credentials_path_pattern() {
    assert!(is_credential_file("/home/user/.aws/credentials"));
}

#[test]
fn gnupg_path_pattern() {
    assert!(is_credential_file("/home/user/.gnupg/secring.gpg"));
}

#[test]
fn normal_rust_file_is_not_credential() {
    assert!(!is_credential_file("/project/src/main.rs"));
}

#[test]
fn normal_json_file_is_not_credential() {
    assert!(!is_credential_file("/project/config.json"));
}

#[test]
fn credentials_json_is_credential() {
    assert!(is_credential_file("/project/credentials.json"));
}

#[test]
fn service_account_json_is_credential() {
    assert!(is_credential_file("/project/service-account.json"));
}

#[test]
fn dotfile_without_second_dot_has_no_extension() {
    // ".env" matches by name; a lone leading dot is not an extension marker,
    // so ".pem" as a whole file name is not flagged by extension.
    assert!(!is_credential_file("/project/.pem"));
}

#[test]
fn filter_keeps_only_credential_paths() {
    let paths = vec![
        String::from("/p/.env"),
        String::from("/p/src/main.rs"),
        String::from("/p/certs/server.pem"),
        String::from("/p/README.md"),
    ];
    let found = filter_credential_paths(&paths);
    assert_eq!(
        found,
        vec![String::from("/p/.env"), String::from("/p/certs/server.pem")]
    );
}

#[test]
fn filter_of_clean_list_is_empty() {
    let paths = vec![String::from("/p/a.rs"), String::from("/p/b.md")];
    assert!(filter_credential_paths(&paths).is_empty());
}

#[test]
fn skipped_directories() {
    assert!(is_skipped_dir("node_modules"));
    assert!(is_skipped_dir(".git"));
    assert!(is_skipped_dir("target"));
    assert!(is_skipped_dir("__pycache__"));
    assert!(is_skipped_dir(".venv"));
    assert!(is_skipped_dir("venv"));
    assert!(!is_skipped_dir("src"));
}

#[test]
fn parent_component_has_no_file_name() {
    // A path ending in `..` names no file, so nothing is flagged — even
    // inside a credential directory.
    assert!(!is_credential_file("/home/user/.ssh/.."));
    assert!(!is_credential_file(".."));
    assert!(!is_credential_file("/"));
}

#[test]
fn trailing_separators_are_ignored() {
    assert!(is_credential_file("/home/user/.ssh/"));
    assert!(is_credential_file("/project/.env/"));
    assert!(is_credential_file("/certs/server.pem/."));
}
