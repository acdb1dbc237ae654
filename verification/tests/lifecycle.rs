use devcenter::escalation::{
    escalation_action, escalation_step, EscalationAction, EscalationEvent, EscalationState,
};
use devcenter::orchestrator::{
    aggregate_stop_results, all_services, check_command_safety, interpret_stop_script,
    start_precheck, started_msg, stop_service_run, ScriptResult,
};
use devcenter::registry::AppState;

#[test]
fn registry_tracks_one_pid_per_service() {
    let mut state = AppState::new();
    assert_eq!(state.get_pid("backend"), None);
    state.register_pid(String::from("backend"), 100);
    assert_eq!(state.get_pid("backend"), Some(100));
    state.register_pid(String::from("backend"), 200);
    assert_eq!(state.get_pid("backend"), Some(200));
    let all = state.get_all_pids();
    assert_eq!(all.len(), 1);
    assert_eq!(all[0], (String::from("backend"), 200));
    assert_eq!(state.remove_pid("backend"), Some(200));
    assert_eq!(state.get_pid("backend"), None);
    assert_eq!(state.remove_pid("backend"), None);
}

#[test]
fn registry_snapshot_is_a_copy() {
    let mut state = AppState::new();
    state.register_pid(String::from("tunnel"), 7);
    state.register_pid(String::from("frontend"), 8);
    let all = state.get_all_pids();
    state.remove_pid("tunnel");
    assert_eq!(all.len(), 2);
    assert_eq!(state.get_all_pids().len(), 1);
}

#[test]
fn start_while_running_is_refused_and_pid_unchanged() {
    let mut state = AppState::new();
    state.register_pid(String::from("backend"), 4242);
    let r = start_precheck(&mut state, "backend", true);
    assert_eq!(
        r.unwrap_err(),
        "Service backend is already running (PID: 4242)"
    );
    assert_eq!(state.get_pid("backend"), Some(4242));
}

#[test]
fn start_after_out_of_band_death_heals_the_registry() {
    let mut state = AppState::new();
    state.register_pid(String::from("backend"), 4242);
    let r = start_precheck(&mut state, "backend", false);
    assert!(r.is_ok());
    assert_eq!(state.get_pid("backend"), None);
}

#[test]
fn dead_pid_is_evicted_on_status_check() {
    let mut state = AppState::new();
    state.register_pid(String::from("frontend"), 31337);
    let running = devcenter::orchestrator::reconcile_service(&mut state, "frontend", false);
    assert!(!running);
    assert_eq!(devcenter::probe::status_label(running), "STOPPED");
    let snapshot = state.get_all_pids();
    assert!(snapshot.iter().all(|(name, _)| name != "frontend"));
}

#[test]
fn live_pid_stays_tracked_on_status_check() {
    let mut state = AppState::new();
    state.register_pid(String::from("frontend"), 31337);
    let running = devcenter::orchestrator::reconcile_service(&mut state, "frontend", true);
    assert!(running);
    assert_eq!(state.get_pid("frontend"), Some(31337));
}

#[test]
fn stop_twice_never_errors_on_the_second_call() {
    let mut state = AppState::new();
    state.register_pid(String::from("backend"), 555);
    let first = stop_service_run(
        &mut state,
        "backend",
        Some(EscalationState::Confirmed),
        None,
        None,
        None,
    );
    assert_eq!(first.unwrap(), "Service backend stopped (PID: 555)");
    assert_eq!(state.get_pid("backend"), None);
    let second = stop_service_run(&mut state, "backend", None, None, None, None);
    assert_eq!(second.unwrap(), "Service backend was not running");
    assert_eq!(state.get_pid("backend"), None);
}

#[test]
fn failed_escalation_reports_failure_but_clears_the_registry() {
    let mut state = AppState::new();
    state.register_pid(String::from("tunnel"), 90);
    let r = stop_service_run(
        &mut state,
        "tunnel",
        Some(EscalationState::Failed),
        None,
        None,
        None,
    );
    assert_eq!(r.unwrap_err(), "Failed to kill process 90");
    assert_eq!(state.get_pid("tunnel"), None);
}

#[test]
fn escalation_confirms_a_process_that_ignores_the_graceful_signal() {
    let mut s = EscalationState::Running;
    assert_eq!(escalation_action(s), EscalationAction::SendGraceful);
    s = escalation_step(s, EscalationEvent::SignalDelivered);
    assert_eq!(escalation_action(s), EscalationAction::CheckAfterGrace);
    s = escalation_step(s, EscalationEvent::ProcessExists);
    assert_eq!(escalation_action(s), EscalationAction::SendForced);
    s = escalation_step(s, EscalationEvent::SignalDelivered);
    assert_eq!(escalation_action(s), EscalationAction::CheckFinal);
    s = escalation_step(s, EscalationEvent::ProcessGone);
    assert_eq!(s, EscalationState::Confirmed);
    assert_eq!(escalation_action(s), EscalationAction::Done);
}

#[test]
fn escalation_confirms_directly_after_the_graceful_signal() {
    let mut s = EscalationState::Running;
    s = escalation_step(s, EscalationEvent::SignalDelivered);
    s = escalation_step(s, EscalationEvent::ProcessGone);
    assert_eq!(s, EscalationState::Confirmed);
}

#[test]
fn escalation_fails_when_the_process_survives_the_forced_signal() {
    let mut s = EscalationState::Running;
    s = escalation_step(s, EscalationEvent::SignalDelivered);
    s = escalation_step(s, EscalationEvent::ProcessExists);
    s = escalation_step(s, EscalationEvent::SignalDelivered);
    s = escalation_step(s, EscalationEvent::ProcessExists);
    assert_eq!(s, EscalationState::Failed);
}

#[test]
fn a_refused_signal_is_settled_by_the_existence_check() {
    // An already-dead process refuses the signal; the check confirms the stop.
    let mut s = EscalationState::Running;
    s = escalation_step(s, EscalationEvent::SignalRefused);
    assert_eq!(escalation_action(s), EscalationAction::CheckAfterGrace);
    s = escalation_step(s, EscalationEvent::ProcessGone);
    assert_eq!(s, EscalationState::Confirmed);
}

#[test]
fn escalation_fails_only_when_the_final_check_finds_the_process() {
    // Both signals refused on a process that is nevertheless still there.
    let mut s = EscalationState::Running;
    s = escalation_step(s, EscalationEvent::SignalRefused);
    s = escalation_step(s, EscalationEvent::ProcessExists);
    assert_eq!(escalation_action(s), EscalationAction::SendForced);
    s = escalation_step(s, EscalationEvent::SignalRefused);
    assert_eq!(escalation_action(s), EscalationAction::CheckFinal);
    s = escalation_step(s, EscalationEvent::ProcessExists);
    assert_eq!(s, EscalationState::Failed);
}

#[test]
fn stopping_a_dead_tracked_process_succeeds() {
    let mut state = AppState::new();
    state.register_pid(String::from("backend"), 77);
    // The pid no longer exists: the signal is refused, the check finds it gone.
    let mut s = EscalationState::Running;
    s = escalation_step(s, EscalationEvent::SignalRefused);
    s = escalation_step(s, EscalationEvent::ProcessGone);
    assert_eq!(s, EscalationState::Confirmed);
    let r = stop_service_run(&mut state, "backend", Some(s), None, None, None);
    assert_eq!(r.unwrap(), "Service backend stopped (PID: 77)");
    assert_eq!(state.get_pid("backend"), None);
}

#[test]
fn stopping_an_unknown_service_without_pid_is_a_configuration_error() {
    let mut state = AppState::new();
    let r = stop_service_run(&mut state, "database", None, None, None, None);
    assert_eq!(r.unwrap_err(), "Unknown service: database");
}

#[test]
fn stopping_an_unknown_service_with_a_tracked_pid_stops_it() {
    let mut state = AppState::new();
    state.register_pid(String::from("worker"), 99);
    let r = stop_service_run(
        &mut state,
        "worker",
        Some(EscalationState::Confirmed),
        None,
        None,
        None,
    );
    assert_eq!(r.unwrap(), "Service worker stopped (PID: 99)");
    assert_eq!(state.get_pid("worker"), None);
}

#[test]
fn zombie_sweep_outcomes_follow_the_exit_code() {
    let ok = ScriptResult { stdout: String::from("swept 2
"), stderr: String::new(), code: 0 };
    assert_eq!(
        devcenter::orchestrator::interpret_zombies_result(&ok).unwrap(),
        "swept 2
"
    );
    let bad = ScriptResult {
        stdout: String::new(),
        stderr: String::from("denied"),
        code: 2,
    };
    assert_eq!(
        devcenter::orchestrator::interpret_zombies_result(&bad).unwrap_err(),
        "Failed to kill zombies: denied"
    );
}

#[test]
fn stop_all_fails_exactly_when_one_service_failed() {
    let outcomes = vec![
        (String::from("tunnel"), Ok(String::from("Service tunnel stopped"))),
        (
            String::from("backend"),
            Err(String::from("Failed to kill process 555")),
        ),
        (
            String::from("frontend"),
            Ok(String::from("Service frontend was not running")),
        ),
    ];
    let r = aggregate_stop_results(&outcomes);
    let msg = r.unwrap_err();
    assert_eq!(
        msg,
        "Some services failed to stop.\nStopped:\ntunnel: Service tunnel stopped\nfrontend: Service frontend was not running\n\nErrors:\nbackend: Failed to kill process 555"
    );
}

#[test]
fn stop_all_succeeds_when_every_service_stopped() {
    let outcomes = vec![
        (String::from("tunnel"), Ok(String::from("a"))),
        (String::from("backend"), Ok(String::from("b"))),
    ];
    let r = aggregate_stop_results(&outcomes);
    assert_eq!(
        r.unwrap(),
        "All services stopped successfully.\ntunnel: a\nbackend: b"
    );
}

#[test]
fn the_service_enumeration_is_fixed() {
    let services = all_services();
    assert_eq!(services, vec!["tunnel", "backend", "frontend", "netdata"]);
}

#[test]
fn stop_script_success_reports_its_output() {
    let res = ScriptResult {
        stdout: String::from("  backend stopped cleanly \n"),
        stderr: String::new(),
        code: 0,
    };
    assert_eq!(
        interpret_stop_script("backend", &res).unwrap(),
        "backend stopped cleanly"
    );
}

#[test]
fn stop_script_silence_reports_the_default_message() {
    let res = ScriptResult {
        stdout: String::from("   "),
        stderr: String::new(),
        code: 0,
    };
    assert_eq!(
        interpret_stop_script("backend", &res).unwrap(),
        "Service backend stopped"
    );
}

#[test]
fn stop_script_not_running_phrase_counts_as_success() {
    let res = ScriptResult {
        stdout: String::from("netdata was not running\n"),
        stderr: String::from("whatever"),
        code: 3,
    };
    assert_eq!(
        interpret_stop_script("netdata", &res).unwrap(),
        "netdata was not running"
    );
}

#[test]
fn stop_script_failure_reports_its_error_output() {
    let res = ScriptResult {
        stdout: String::new(),
        stderr: String::from("permission denied"),
        code: 1,
    };
    assert_eq!(
        interpret_stop_script("tunnel", &res).unwrap_err(),
        "Failed to stop service tunnel: permission denied"
    );
}

#[test]
fn started_message_names_service_and_pid() {
    assert_eq!(started_msg("frontend", 808), "Service frontend started (PID: 808)");
}

#[test]
fn dangerous_commands_are_blocked() {
    assert_eq!(
        check_command_safety("Sudo apt upgrade").unwrap_err(),
        "Commande dangereuse bloquée: sudo"
    );
    assert_eq!(
        check_command_safety("sudo reboot").unwrap_err(),
        "Commande dangereuse bloquée: reboot"
    );
    assert_eq!(
        check_command_safety("rm -rf /tmp/x").unwrap_err(),
        "Commande dangereuse bloquée: rm -rf"
    );
    assert!(check_command_safety("ls -la").is_ok());
}
