use devcenter::envs::{build_envs, tunnel_forward_pattern};
use devcenter::gmd::{gmd_argv, gmd_command_line, gmd_cwd_display, make_exit_event, make_log_event,
    GmdCommand};
use devcenter::names::format_project_name;
use devcenter::probe::{
    any_backend_match, any_netdata_match, any_tunnel_match, extract_pid_from_ss,
    first_pid_from_output, parse_pid_output, process_name_for, service_status, status_label,
    ProcessInfo,
};
use devcenter::project::{assemble_scan_result, build_project_v3, Ports, ProjectV3, Tunnel};
use devcenter::resolver::detect_scripts_info;
use devcenter::status::{
    assemble_project_statuses, interpret_generic_pkill, interpret_kill_by_port,
    interpret_netdata_stop, interpret_tunnel_pkill, interpret_tunnel_script, project_to_legacy,
    resolve_command_path, service_work_dir, split_command,
};
use devcenter::store::{
    add_project, delete_project, find_project_by_path, update_project, Project, ProjectCommand,
    ProjectConfig, ProjectServices,
};

fn demo_project_v3() -> ProjectV3 {
    let mut p = build_project_v3(
        String::from("/home/dev/demo"),
        "demo",
        Some(String::from("/home/dev/demo/backend")),
        Some(String::from("/home/dev/demo/frontend")),
    );
    p.ports = Ports { backend: 3010, frontend: 3000 };
    p
}

fn stored_project() -> Project {
    Project {
        name: String::from("demo"),
        backend_path: String::from("/p/backend"),
        frontend_path: String::from("/p/frontend"),
        scripts_path: String::from("/p/scripts"),
        services: ProjectServices {
            tunnel: Some(ProjectCommand {
                start: String::from("tunnel-on.sh"),
                stop: Some(String::from("tunnel-off.sh")),
                port: None,
            }),
            backend: Some(ProjectCommand {
                start: String::from("backend-on.sh"),
                stop: None,
                port: Some(3010),
            }),
            frontend: Some(ProjectCommand {
                start: String::from("frontend-on.sh"),
                stop: None,
                port: None,
            }),
            netdata: None,
        },
    }
}

#[test]
fn build_envs_names_the_backend_context() {
    let p = demo_project_v3();
    let envs = build_envs(&p, "backend");
    assert_eq!(
        envs,
        vec![
            (String::from("PROJECT_ROOT_PATH"), String::from("/home/dev/demo")),
            (
                String::from("PROJECT_BACKEND_PATH"),
                String::from("/home/dev/demo/backend")
            ),
            (String::from("PROJECT_BACKEND_PORT"), String::from("3010")),
        ]
    );
}

#[test]
fn build_envs_carries_the_tunnel_parameters() {
    let mut p = demo_project_v3();
    p.tunnel = Some(Tunnel {
        enabled: true,
        host: String::from("vps.example"),
        user: String::from("deploy"),
        port: 22,
        private_key: String::from("/home/dev/.ssh/id"),
        local_mongo: 27018,
        remote_mongo: 27017,
    });
    let envs = build_envs(&p, "tunnel");
    assert_eq!(envs.len(), 7);
    assert_eq!(envs[3], (String::from("PROJECT_TUNNEL_PORT"), String::from("22")));
    assert_eq!(envs[4], (String::from("PROJECT_LOCAL_MONGO"), String::from("27018")));
    assert_eq!(envs[6], (String::from("PROJECT_TUNNEL_KEY"), String::from("/home/dev/.ssh/id")));
}

#[test]
fn build_envs_without_tunnel_config_keeps_only_the_root() {
    let p = demo_project_v3();
    let envs = build_envs(&p, "tunnel");
    assert_eq!(envs, vec![(String::from("PROJECT_ROOT_PATH"), String::from("/home/dev/demo"))]);
}

#[test]
fn the_forward_pattern_is_local_loopback_remote() {
    assert_eq!(tunnel_forward_pattern(27018, 27017), "27018:127.0.0.1:27017");
}

#[test]
fn backend_matching_needs_runtime_path_and_port() {
    let p = demo_project_v3();
    let hit = ProcessInfo {
        name: String::from("node"),
        cmd: String::from("node /home/dev/demo/backend/server.js --port 3010"),
    };
    let wrong_port = ProcessInfo {
        name: String::from("node"),
        cmd: String::from("node /home/dev/demo/backend/server.js --port 4000"),
    };
    let wrong_runtime = ProcessInfo {
        name: String::from("python"),
        cmd: String::from("python /home/dev/demo/backend 3010"),
    };
    assert!(any_backend_match(&p, &vec![hit.clone()]));
    assert!(!any_backend_match(&p, &vec![wrong_port, wrong_runtime]));
    assert!(!any_backend_match(&p, &vec![]));
}

#[test]
fn tunnel_matching_needs_the_exact_forward_pattern() {
    let hit = ProcessInfo {
        name: String::from("ssh"),
        cmd: String::from("ssh -N -L 27018:127.0.0.1:27017 deploy@vps"),
    };
    let other = ProcessInfo {
        name: String::from("ssh"),
        cmd: String::from("ssh -N -L 5433:127.0.0.1:5432 deploy@vps"),
    };
    assert!(any_tunnel_match(27018, 27017, &vec![hit]));
    assert!(!any_tunnel_match(27018, 27017, &vec![other]));
}

#[test]
fn netdata_matching_goes_by_image_name() {
    let hit = ProcessInfo { name: String::from("netdata"), cmd: String::new() };
    let miss = ProcessInfo { name: String::from("nginx"), cmd: String::new() };
    assert!(any_netdata_match(&vec![hit]));
    assert!(!any_netdata_match(&vec![miss]));
}

#[test]
fn unknown_services_are_rejected_by_status() {
    let p = demo_project_v3();
    assert_eq!(
        service_status(&p, "database").unwrap_err(),
        "Unknown service: database"
    );
}

#[test]
fn status_labels_are_fixed() {
    assert_eq!(status_label(true), "RUNNING");
    assert_eq!(status_label(false), "STOPPED");
}

#[test]
fn process_names_cover_the_known_services() {
    assert_eq!(process_name_for("tunnel"), Some("ssh"));
    assert_eq!(process_name_for("backend"), Some("node"));
    assert_eq!(process_name_for("frontend"), Some("node"));
    assert_eq!(process_name_for("netdata"), Some("netdata"));
    assert_eq!(process_name_for("database"), None);
}

#[test]
fn pids_are_read_from_process_listings() {
    assert_eq!(parse_pid_output(" 1234\n"), Some(1234));
    assert_eq!(parse_pid_output("1234\n5678\n"), None);
    assert_eq!(first_pid_from_output("1234\n5678\n"), Some(1234));
    assert_eq!(first_pid_from_output("none"), None);
}

#[test]
fn the_socket_listing_yields_the_pid_on_the_port_line() {
    let out = "State Recv-Q\nLISTEN 0 128 0.0.0.0:3000 0.0.0.0:* users:((\"node\",pid=12345,fd=3))\n";
    assert_eq!(extract_pid_from_ss(out, 3000), Some(12345));
    assert_eq!(extract_pid_from_ss(out, 3010), None);
}

#[test]
fn project_names_are_capitalized_per_word() {
    assert_eq!(format_project_name("gestionmax-ops"), "Gestionmax Ops");
    assert_eq!(format_project_name("my_cool_app"), "My Cool App");
    assert_eq!(format_project_name("demo"), "Demo");
    assert_eq!(format_project_name(""), "");
}

#[test]
fn scan_results_collect_warnings_in_order() {
    let info = detect_scripts_info(None, &Vec::new());
    let r = assemble_scan_result("demo-shop", None, None, None, None, info);
    assert_eq!(r.name, "Demo Shop");
    assert_eq!(
        r.warnings,
        vec![
            "Backend Payload non détecté",
            "Frontend Next.js non détecté",
            "Dossier scripts non détecté (scripts/)",
            "Scripts tunnel (tunnel-on/off.sh) non détectés",
            "Scripts backend (backend-on/off.sh) non détectés",
            "Scripts frontend (frontend-on/off.sh) non détectés",
        ]
    );
    assert!(r.backend_path.is_none());
    assert!(r.backend_start.is_none());
}

#[test]
fn registry_edits_enforce_unique_names() {
    let mut cfg = ProjectConfig { projects: Vec::new() };
    assert!(add_project(&mut cfg, stored_project()).is_ok());
    assert_eq!(
        add_project(&mut cfg, stored_project()).unwrap_err(),
        "A project with the name 'demo' already exists"
    );
    let mut changed = stored_project();
    changed.backend_path = String::from("/p2/backend");
    assert!(update_project(&mut cfg, changed).is_ok());
    assert_eq!(cfg.projects[0].backend_path, "/p2/backend");
    let mut missing = stored_project();
    missing.name = String::from("ghost");
    assert_eq!(
        update_project(&mut cfg, missing).unwrap_err(),
        "Project 'ghost' not found"
    );
    assert_eq!(
        delete_project(&mut cfg, "ghost").unwrap_err(),
        "Project 'ghost' not found"
    );
    assert!(delete_project(&mut cfg, "demo").is_ok());
    assert!(cfg.projects.is_empty());
}

#[test]
fn projects_are_found_by_either_path() {
    let cfg = ProjectConfig { projects: vec![stored_project()] };
    assert_eq!(find_project_by_path(&cfg, "/p/backend").unwrap().name, "demo");
    assert_eq!(find_project_by_path(&cfg, "/p/frontend").unwrap().name, "demo");
    assert!(find_project_by_path(&cfg, "/elsewhere").is_none());
}

#[test]
fn the_listing_defaults_missing_ports() {
    let legacy = project_to_legacy(&stored_project());
    assert_eq!(legacy.name, "demo");
    assert_eq!(legacy.path, "/p/backend");
    assert_eq!(legacy.stack, "Custom");
    assert_eq!(legacy.services.len(), 3);
    assert_eq!(legacy.services[0].name, "tunnel");
    assert_eq!(legacy.services[0].port, 0);
    assert_eq!(legacy.services[1].name, "backend");
    assert_eq!(legacy.services[1].port, 3010);
    assert_eq!(legacy.services[2].name, "frontend");
    assert_eq!(legacy.services[2].port, 3000);
}

#[test]
fn status_rows_report_each_configured_service() {
    let rows = assemble_project_statuses(&stored_project(), Some(77), true, Some(88), false, None);
    assert_eq!(rows.len(), 2);
    assert_eq!(rows[0].name, "tunnel");
    assert_eq!(rows[0].status, "RUNNING");
    assert_eq!(rows[0].pid, Some(77));
    assert_eq!(rows[1].name, "backend");
    assert_eq!(rows[1].port, 3010);
    assert_eq!(rows[1].status, "RUNNING");
    assert_eq!(rows[1].pid, Some(88));
}

#[test]
fn work_directories_follow_the_service() {
    let p = stored_project();
    assert_eq!(service_work_dir(&p, "backend"), "/p/backend");
    assert_eq!(service_work_dir(&p, "frontend"), "/p/frontend");
    assert_eq!(service_work_dir(&p, "tunnel"), "/p/backend");
}

#[test]
fn commands_resolve_against_the_scripts_directory() {
    assert_eq!(resolve_command_path("/p/scripts", "start.sh"), "/p/scripts/start.sh");
    assert_eq!(resolve_command_path("/p/scripts/", "start.sh"), "/p/scripts/start.sh");
    assert_eq!(resolve_command_path("/p/scripts", "/abs/start.sh"), "/abs/start.sh");
    assert_eq!(resolve_command_path("/p/scripts", "~/start.sh"), "~/start.sh");
}

#[test]
fn command_lines_split_into_program_and_arguments() {
    let (prog, args) = split_command("bash start.sh --fast").unwrap();
    assert_eq!(prog, "bash");
    assert_eq!(args, vec!["start.sh", "--fast"]);
    assert_eq!(split_command("  ").unwrap_err(), "Command is empty");
}

#[test]
fn project_stop_interpretations_match_their_outcomes() {
    assert_eq!(interpret_tunnel_script(true).unwrap(), "Tunnel SSH stopped");
    assert!(interpret_tunnel_script(false).is_none());
    assert_eq!(
        interpret_tunnel_pkill(true, false, Some(1)),
        "Tunnel SSH stopped or was not running"
    );
    assert_eq!(interpret_tunnel_pkill(false, false, None), "Tunnel SSH was not running");
    assert_eq!(
        interpret_kill_by_port("backend", 555, true).unwrap(),
        "Service backend stopped (PID: 555)"
    );
    assert_eq!(
        interpret_kill_by_port("backend", 555, false).unwrap_err(),
        "Failed to kill process 555"
    );
    assert_eq!(
        interpret_netdata_stop(true, false),
        "Service netdata stopped via systemctl"
    );
    assert_eq!(interpret_netdata_stop(false, true), "Service netdata stopped");
    assert_eq!(interpret_netdata_stop(false, false), "Service netdata was not running");
    assert_eq!(interpret_generic_pkill("worker", true), "Service worker stopped");
    assert_eq!(interpret_generic_pkill("worker", false), "Service worker was not running");
}

#[test]
fn the_tool_argv_appends_the_project_identifier() {
    let cmd = GmdCommand {
        args: vec![String::from("status"), String::from("--json")],
        cwd: Some(String::from("/p")),
        project_id: Some(String::from("demo")),
    };
    assert_eq!(gmd_argv(&cmd), vec!["status", "--json", "demo"]);
    assert_eq!(gmd_command_line(&cmd), "gmdev status --json");
    assert_eq!(gmd_cwd_display(&cmd), "/p");
    let bare = GmdCommand { args: vec![String::from("doctor")], cwd: None, project_id: None };
    assert_eq!(gmd_argv(&bare), vec!["doctor"]);
    assert_eq!(gmd_cwd_display(&bare), ".");
}

#[test]
fn log_and_exit_events_carry_their_fields() {
    let ev = make_log_event(
        String::from("run-1"),
        String::from("2024-01-01T00:00:00+00:00"),
        true,
        String::from("boom"),
        String::from("gmdev status"),
        String::from("/p"),
    );
    assert_eq!(ev.run_id, "run-1");
    assert_eq!(ev.level, "stderr");
    assert_eq!(ev.line, "boom");
    let ok = make_log_event(
        String::from("run-1"),
        String::from("ts"),
        false,
        String::from("fine"),
        String::from("gmdev status"),
        String::from("."),
    );
    assert_eq!(ok.level, "stdout");
    let exit = make_exit_event(String::from("run-1"), 3);
    assert_eq!(exit.run_id, "run-1");
    assert_eq!(exit.exit_code, 3);
}
