use devcenter::ports::{detect_backend_port, detect_frontend_port, extract_port_from_env};
use devcenter::project::{
    build_project_v3, first_existing_path, get_project_by_id, has_shell_scripts, is_next_frontend,
    is_payload_backend, is_scripts_dir_name, should_ignore_dir, ProjectConfigV3,
};
use devcenter::resolver::{
    backend_start_candidates, backend_stop_candidates, detect_script_pair, detect_scripts_info,
    find_script, pick_existing_path, resolve_script, resolve_service_script,
};

fn strings(names: &[&str]) -> Vec<String> {
    names.iter().map(|n| n.to_string()).collect()
}

#[test]
fn resolver_prefers_the_first_present_candidate() {
    let files = strings(&["start-backend.sh", "deploy.sh"]);
    let r = resolve_service_script(&files, "backend", "start");
    assert_eq!(r.unwrap(), "start-backend.sh");
}

#[test]
fn resolver_failure_names_service_and_action() {
    let files = strings(&["deploy.sh", "clean.sh"]);
    let r = resolve_service_script(&files, "backend", "start");
    assert_eq!(r.unwrap_err(), "No start script found for backend");
}

#[test]
fn exact_candidate_wins_over_substring_match() {
    let files = strings(&["my-backend-on.sh.bak.sh", "backend-on.sh"]);
    let cands = backend_start_candidates();
    assert_eq!(find_script(&files, &cands).unwrap(), "backend-on.sh");
}

#[test]
fn candidate_match_ignores_case() {
    let files = strings(&["Backend-On.sh"]);
    let cands = backend_start_candidates();
    assert_eq!(find_script(&files, &cands).unwrap(), "Backend-On.sh");
}

#[test]
fn an_earlier_candidate_wins_whatever_its_case() {
    // With the first candidate absent, a different-case variant of the
    // second still wins the exact phase.
    let files = strings(&["Start-Backend.sh"]);
    let cands = backend_start_candidates();
    assert_eq!(find_script(&files, &cands).unwrap(), "Start-Backend.sh");
    // And the first candidate beats it when both are present.
    let both = strings(&["Start-Backend.sh", "backend-on.sh"]);
    assert_eq!(find_script(&both, &cands).unwrap(), "backend-on.sh");
}

#[test]
fn substring_match_is_the_fallback() {
    let files = strings(&["run-start-backend.sh-wrapper.sh"]);
    let cands = backend_start_candidates();
    assert_eq!(
        find_script(&files, &cands).unwrap(),
        "run-start-backend.sh-wrapper.sh"
    );
}

#[test]
fn a_stop_script_alone_makes_no_pair() {
    let files = strings(&["backend-off.sh"]);
    let pair = detect_script_pair(&files, &backend_start_candidates(), &backend_stop_candidates());
    assert!(pair.is_none());
}

#[test]
fn a_start_script_without_stop_still_makes_a_pair() {
    let files = strings(&["backend-on.sh"]);
    let pair = detect_script_pair(&files, &backend_start_candidates(), &backend_stop_candidates())
        .unwrap();
    assert_eq!(pair.start, "backend-on.sh");
    assert!(pair.stop.is_none());
}

#[test]
fn scripts_info_reports_missing_pairs_and_netdata_defaults() {
    let files = strings(&["backend-on.sh", "backend-off.sh"]);
    let info = detect_scripts_info(Some(String::from("/p/scripts")), &files);
    assert_eq!(info.path.as_deref(), Some("/p/scripts"));
    let backend = info.scripts.backend.unwrap();
    assert_eq!(backend.start, "backend-on.sh");
    assert_eq!(backend.stop.as_deref(), Some("backend-off.sh"));
    assert!(info.scripts.tunnel.is_none());
    assert!(info.scripts.frontend.is_none());
    assert_eq!(info.scripts.netdata.start, "netdata-on.sh");
    assert_eq!(info.scripts.netdata.stop.as_deref(), Some("netdata-off.sh"));
    assert_eq!(info.scripts.netdata.port, 19999);
    assert_eq!(
        info.warnings,
        vec![
            "Scripts tunnel (tunnel-on/off.sh) non détectés",
            "Scripts frontend (frontend-on/off.sh) non détectés",
        ]
    );
}

#[test]
fn packaged_script_names_are_fixed() {
    assert_eq!(resolve_script("backend", "start"), Some("backend-on.sh"));
    assert_eq!(resolve_script("frontend", "stop"), Some("frontend-off.sh"));
    assert_eq!(resolve_script("zombies", "kill"), Some("kill-zombies.sh"));
    assert_eq!(resolve_script("backend", "kill"), None);
    assert_eq!(resolve_script("database", "start"), None);
}

#[test]
fn the_first_existing_location_wins() {
    let candidates = strings(&["/resources/s.sh", "/dev/s.sh", "/src/s.sh"]);
    let exists = vec![false, true, true];
    let r = pick_existing_path(&candidates, &exists, "s.sh");
    assert_eq!(r.unwrap(), "/dev/s.sh");
    let none = vec![false, false, false];
    assert_eq!(
        pick_existing_path(&candidates, &none, "s.sh").unwrap_err(),
        "Script not found: s.sh"
    );
}

#[test]
fn env_port_takes_priority_over_config_and_manifest() {
    let env = "PORT=4001\n";
    let config = "module.exports = { port: 4100 }";
    let pkg = r#"{ "scripts": { "dev": "next dev -p 4200" } }"#;
    assert_eq!(detect_frontend_port(Some(env), Some(config), Some(pkg)), 4001);
    assert_eq!(detect_frontend_port(None, Some(config), Some(pkg)), 4100);
    assert_eq!(detect_frontend_port(None, None, Some(pkg)), 4200);
    assert_eq!(detect_frontend_port(None, None, None), 3000);
}

#[test]
fn backend_port_follows_the_same_precedence() {
    let env = "PAYLOAD_PORT=4001 # dev override\n";
    let config = "export default { serverURL: 'http://localhost:3020' }";
    let pkg = r#"{ "scripts": { "dev": "payload dev --port 3030" } }"#;
    assert_eq!(detect_backend_port(Some(env), Some(config), Some(pkg)), 4001);
    assert_eq!(detect_backend_port(None, Some(config), Some(pkg)), 3020);
    assert_eq!(detect_backend_port(None, None, Some(pkg)), 3030);
    assert_eq!(detect_backend_port(None, None, None), 3010);
}

#[test]
fn env_extraction_strips_comments_and_tries_aliases() {
    let content = "# config\nDEBUG=1\nBACKEND_PORT= 8080  # local\n";
    assert_eq!(
        extract_port_from_env(content, vec!["PORT", "BACKEND_PORT"]),
        Some(8080)
    );
    assert_eq!(extract_port_from_env("PORT=abc\n", vec!["PORT"]), None);
    assert_eq!(extract_port_from_env("", vec!["PORT"]), None);
    assert_eq!(extract_port_from_env("PORT=70000\n", vec!["PORT"]), None);
}

#[test]
fn env_extraction_first_line_wins() {
    let content = "PORT=1111\nPORT=2222\n";
    assert_eq!(extract_port_from_env(content, vec!["PORT"]), Some(1111));
}

#[test]
fn ignored_directories_are_recognised() {
    assert!(should_ignore_dir("node_modules"));
    assert!(should_ignore_dir(".git"));
    assert!(should_ignore_dir("frontend-backup"));
    assert!(should_ignore_dir("archive-2021"));
    assert!(!should_ignore_dir("backend"));
    assert!(!should_ignore_dir("src"));
}

#[test]
fn backend_classification_needs_manifest_and_framework_signal() {
    assert!(is_payload_backend(true, true, false, None));
    assert!(is_payload_backend(true, false, true, Some("{\"dependencies\":{\"@payloadcms/db\":\"1\"}}")));
    assert!(!is_payload_backend(true, false, true, Some("{\"dependencies\":{\"express\":\"4\"}}")));
    assert!(!is_payload_backend(false, true, true, None));
}

#[test]
fn frontend_classification_excludes_backup_directories() {
    let manifest = "{\"dependencies\":{\"next\":\"14\"}}";
    assert!(is_next_frontend("web", true, Some(manifest)));
    assert!(!is_next_frontend("frontend-backup", true, Some(manifest)));
    assert!(!is_next_frontend("web", true, Some("{\"dependencies\":{\"vue\":\"3\"}}")));
}

#[test]
fn scripts_directories_are_found_by_name_and_content() {
    assert!(is_scripts_dir_name("scripts"));
    assert!(is_scripts_dir_name("dev-tools"));
    assert!(!is_scripts_dir_name("assets"));
    assert!(has_shell_scripts(&strings(&["run.sh", "notes.txt"])));
    assert!(!has_shell_scripts(&strings(&["notes.txt"])));
}

#[test]
fn quick_scan_builds_a_descriptor_with_defaults() {
    let p = build_project_v3(
        String::from("/home/dev/demo"),
        "demo",
        Some(String::from("/home/dev/demo/backend")),
        None,
    );
    assert_eq!(p.id, "demo");
    assert_eq!(p.name, "demo");
    assert_eq!(p.root_path, "/home/dev/demo");
    assert_eq!(p.backend_path, "/home/dev/demo/backend");
    assert_eq!(p.frontend_path, "");
    assert_eq!(p.ports.backend, 3010);
    assert_eq!(p.ports.frontend, 3000);
    assert!(p.tunnel.is_none());
    assert!(!p.created_at.is_empty());
}

#[test]
fn projects_are_found_by_identifier() {
    let mut cfg = ProjectConfigV3::default();
    cfg.projects.push(build_project_v3(String::from("/a"), "alpha", None, None));
    cfg.projects.push(build_project_v3(String::from("/b"), "beta", None, None));
    assert_eq!(get_project_by_id(&cfg, "beta").unwrap().root_path, "/b");
    assert!(get_project_by_id(&cfg, "gamma").is_none());
}

#[test]
fn the_first_existing_subdirectory_wins() {
    let paths = strings(&["/r/backend", "/r/back", "/r/api"]);
    let exists = vec![false, true, true];
    assert_eq!(first_existing_path(&paths, &exists).unwrap(), "/r/back");
    assert!(first_existing_path(&paths, &vec![false, false, false]).is_none());
}
