use devcenter::names::extract_project_name_from_url;

#[test]
fn test_extract_project_name() {
    assert_eq!(
        extract_project_name_from_url("https://github.com/user/gestionmaxops.git").unwrap(),
        "Gestionmaxops"
    );
    assert_eq!(
        extract_project_name_from_url("git@github.com:user/gestionmax-ops.git").unwrap(),
        "Gestionmax Ops"
    );
}

#[test]
fn extract_name_handles_ssh_and_plain_forms() {
    assert_eq!(
        extract_project_name_from_url("ssh://host/team/tool-kit.git").unwrap(),
        "Tool Kit"
    );
    assert_eq!(
        extract_project_name_from_url("  https://github.com/user/demo_app  ").unwrap(),
        "Demo App"
    );
}

#[test]
fn extract_name_rejects_malformed_urls() {
    assert_eq!(
        extract_project_name_from_url("git@github.com").unwrap_err(),
        "Invalid Git URL format (git@)"
    );
    assert_eq!(
        extract_project_name_from_url("https://github.com/user/.git").unwrap_err(),
        "Invalid Git URL format: empty repository name"
    );
}
