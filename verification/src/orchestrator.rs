//! The lifecycle orchestrator's decisions: when a start is allowed, what a
//! stop returns for each way the world can answer, how liveness checks heal
//! the registry, and how the bulk stop aggregates per-service outcomes.
//!
//! Signalling, spawning and script execution happen outside; each function
//! here takes what was observed and yields the decision, the registry
//! change and the exact message.

use vstd::prelude::*;
use crate::escalation::EscalationState;
use crate::registry::AppState;
use crate::probe::unknown_service_msg;
use crate::text::{
    append_joined, append_str, contains_seq, lower_seq, lower_str, push_u64_digits, spec_digits,
    spec_join_sep, spec_trim, str_eq, string_from_chars, to_chars, trim_chars, contains_chars,
};

verus! {

/// What a one-shot script invocation produced; used for diagnostics only,
/// never to infer liveness.
#[derive(Debug, Clone)]
pub struct ScriptResult {
    pub stdout: String,
    pub stderr: String,
    pub code: i32,
}

/// The fixed enumeration of services the bulk stop walks.
pub open spec fn service_list() -> Seq<Seq<char>> {
    seq!["tunnel"@, "backend"@, "frontend"@, "netdata"@]
}

/// Whether this system knows the service name.
pub open spec fn spec_known_service(service: Seq<char>) -> bool {
    service == "tunnel"@ || service == "backend"@ || service == "frontend"@ || service
        == "netdata"@
}

/// The known services, in the order the bulk stop visits them.
pub fn all_services() -> (r: Vec<String>)
    ensures
        r@.len() == service_list().len(),
        forall|i: int| 0 <= i < r@.len() ==> (#[trigger] r@[i])@ == service_list()[i],
{
    let mut r: Vec<String> = Vec::new();
    r.push(String::from_str("tunnel"));
    r.push(String::from_str("backend"));
    r.push(String::from_str("frontend"));
    r.push(String::from_str("netdata"));
    r
}

/// "Service `s` is already running (PID: `pid`)".
pub open spec fn spec_already_running_msg(service: Seq<char>, pid: u32) -> Seq<char> {
    "Service "@ + service + " is already running (PID: "@ + spec_digits(pid as nat) + ")"@
}

/// "Service `s` started (PID: `pid`)".
pub open spec fn spec_started_msg(service: Seq<char>, pid: u32) -> Seq<char> {
    "Service "@ + service + " started (PID: "@ + spec_digits(pid as nat) + ")"@
}

/// "Service `s` stopped (PID: `pid`)".
pub open spec fn spec_stopped_pid_msg(service: Seq<char>, pid: u32) -> Seq<char> {
    "Service "@ + service + " stopped (PID: "@ + spec_digits(pid as nat) + ")"@
}

/// "Service `s` stopped".
pub open spec fn spec_stopped_msg(service: Seq<char>) -> Seq<char> {
    "Service "@ + service + " stopped"@
}

/// "Service `s` was not running".
pub open spec fn spec_not_running_msg(service: Seq<char>) -> Seq<char> {
    "Service "@ + service + " was not running"@
}

/// "Failed to kill process `pid`".
pub open spec fn spec_kill_failed_msg(pid: u32) -> Seq<char> {
    "Failed to kill process "@ + spec_digits(pid as nat)
}

/// "Failed to stop service `s`: `stderr`".
pub open spec fn spec_stop_failed_msg(service: Seq<char>, stderr: Seq<char>) -> Seq<char> {
    "Failed to stop service "@ + service + ": "@ + stderr
}

fn already_running_msg(service: &str, pid: u32) -> (r: String)
    ensures
        r@ == spec_already_running_msg(service@, pid),
{
    let mut m: Vec<char> = Vec::new();
    append_str(&mut m, "Service ");
    append_str(&mut m, service);
    append_str(&mut m, " is already running (PID: ");
    push_u64_digits(pid as u64, &mut m);
    append_str(&mut m, ")");
    string_from_chars(&m)
}

/// Builds the success message of a completed start.
pub fn started_msg(service: &str, pid: u32) -> (r: String)
    ensures
        r@ == spec_started_msg(service@, pid),
{
    let mut m: Vec<char> = Vec::new();
    append_str(&mut m, "Service ");
    append_str(&mut m, service);
    append_str(&mut m, " started (PID: ");
    push_u64_digits(pid as u64, &mut m);
    append_str(&mut m, ")");
    string_from_chars(&m)
}

fn stopped_pid_msg(service: &str, pid: u32) -> (r: String)
    ensures
        r@ == spec_stopped_pid_msg(service@, pid),
{
    let mut m: Vec<char> = Vec::new();
    append_str(&mut m, "Service ");
    append_str(&mut m, service);
    append_str(&mut m, " stopped (PID: ");
    push_u64_digits(pid as u64, &mut m);
    append_str(&mut m, ")");
    string_from_chars(&m)
}

fn kill_failed_msg(pid: u32) -> (r: String)
    ensures
        r@ == spec_kill_failed_msg(pid),
{
    let mut m: Vec<char> = Vec::new();
    append_str(&mut m, "Failed to kill process ");
    push_u64_digits(pid as u64, &mut m);
    string_from_chars(&m)
}

/// Whether a start may proceed: a live tracked process forbids it; a stale
/// entry is evicted first; an untracked service is free to start.
pub fn start_precheck(state: &mut AppState, service: &str, tracked_alive: bool) -> (r: Result<
    (),
    String,
>)
    requires
        old(state).wf(),
    ensures
        final(state).wf(),
        ({
            let had = old(state).spec_get(service@);
            match had {
                Some(pid) => {
                    if tracked_alive {
                        &&& r matches Err(m) && m@ == spec_already_running_msg(service@, pid)
                        &&& *final(state) == *old(state)
                    } else {
                        &&& r is Ok
                        &&& final(state).spec_get(service@) is None
                        &&& forall|k: Seq<char>|
                            k != service@ ==> #[trigger] final(state).spec_get(k) == old(
                                state,
                            ).spec_get(k)
                    }
                },
                None => r is Ok && *final(state) == *old(state),
            }
        }),
{
    match state.get_pid(service) {
        Some(pid) => {
            if tracked_alive {
                Err(already_running_msg(service, pid))
            } else {
                state.remove_pid(service);
                Ok(())
            }
        },
        None => Ok(()),
    }
}

/// The packaged start script of a service, or an error for an unknown one.
pub fn start_script_name(service: &str) -> (r: Result<&'static str, String>)
    ensures
        (service@ == "tunnel"@ || service@ == "backend"@ || service@ == "frontend"@ || service@
            == "netdata"@) ==> (r matches Ok(n) && crate::resolver::spec_resolve_script(
            service@,
            "start"@,
        ) == Some(n@)),
        !(service@ == "tunnel"@ || service@ == "backend"@ || service@ == "frontend"@ || service@
            == "netdata"@) ==> (r matches Err(m) && m@ == unknown_service_msg(service@)),
{
    proof {
        reveal_strlit("tunnel");
        reveal_strlit("backend");
        reveal_strlit("frontend");
        reveal_strlit("netdata");
        reveal_strlit("zombies");
        reveal_strlit("start");
        reveal_strlit("stop");
        reveal_strlit("kill");
        assert("tunnel"@.len() == 6);
        assert("backend"@.len() == 7);
        assert("frontend"@.len() == 8);
        assert("netdata"@.len() == 7);
        assert("zombies"@.len() == 7);
        assert("backend"@[0] == 'b');
        assert("netdata"@[0] == 'n');
        assert("zombies"@[0] == 'z');
        assert("start"@.len() == 5);
        assert("stop"@.len() == 4);
        assert("kill"@.len() == 4);
        assert("stop"@[0] == 's');
        assert("kill"@[0] == 'k');
    }
    if str_eq(service, "tunnel") {
        Ok("tunnel-on.sh")
    } else if str_eq(service, "backend") {
        Ok("backend-on.sh")
    } else if str_eq(service, "frontend") {
        Ok("frontend-on.sh")
    } else if str_eq(service, "netdata") {
        Ok("netdata-on.sh")
    } else {
        let mut m: Vec<char> = Vec::new();
        append_str(&mut m, "Unknown service: ");
        append_str(&mut m, service);
        Err(string_from_chars(&m))
    }
}

/// The packaged stop script of a service, or an error for an unknown one.
pub fn stop_script_name(service: &str) -> (r: Result<&'static str, String>)
    ensures
        (service@ == "tunnel"@ || service@ == "backend"@ || service@ == "frontend"@ || service@
            == "netdata"@) ==> (r matches Ok(n) && crate::resolver::spec_resolve_script(
            service@,
            "stop"@,
        ) == Some(n@)),
        !(service@ == "tunnel"@ || service@ == "backend"@ || service@ == "frontend"@ || service@
            == "netdata"@) ==> (r matches Err(m) && m@ == unknown_service_msg(service@)),
{
    proof {
        reveal_strlit("tunnel");
        reveal_strlit("backend");
        reveal_strlit("frontend");
        reveal_strlit("netdata");
        reveal_strlit("zombies");
        reveal_strlit("start");
        reveal_strlit("stop");
        reveal_strlit("kill");
        assert("tunnel"@.len() == 6);
        assert("backend"@.len() == 7);
        assert("frontend"@.len() == 8);
        assert("netdata"@.len() == 7);
        assert("zombies"@.len() == 7);
        assert("backend"@[0] == 'b');
        assert("netdata"@[0] == 'n');
        assert("zombies"@[0] == 'z');
        assert("start"@.len() == 5);
        assert("stop"@.len() == 4);
        assert("kill"@.len() == 4);
        assert("stop"@[0] == 's');
        assert("kill"@[0] == 'k');
    }
    if str_eq(service, "tunnel") {
        Ok("tunnel-off.sh")
    } else if str_eq(service, "backend") {
        Ok("backend-off.sh")
    } else if str_eq(service, "frontend") {
        Ok("frontend-off.sh")
    } else if str_eq(service, "netdata") {
        Ok("netdata-off.sh")
    } else {
        let mut m: Vec<char> = Vec::new();
        append_str(&mut m, "Unknown service: ");
        append_str(&mut m, service);
        Err(string_from_chars(&m))
    }
}

/// How a stop script's outcome reads: a clean exit succeeds with its
/// (trimmed) output, a recognized "was not running" phrase succeeds too,
/// anything else fails with the script's error output.
pub open spec fn spec_interpret_stop_script(
    service: Seq<char>,
    stdout: Seq<char>,
    stderr: Seq<char>,
    code: int,
) -> Result<Seq<char>, Seq<char>> {
    let t = spec_trim(stdout);
    if code == 0 {
        if t.len() == 0 {
            Ok(spec_stopped_msg(service))
        } else {
            Ok(t)
        }
    } else if contains_seq(stdout, "n'était pas en cours d'exécution"@) || contains_seq(
        stdout,
        "was not running"@,
    ) || contains_seq(stdout, "not found"@) {
        Ok(t)
    } else {
        Err(spec_stop_failed_msg(service, stderr))
    }
}

/// Interprets the outcome of a stop script run.
pub fn interpret_stop_script(service: &str, res: &ScriptResult) -> (r: Result<String, String>)
    ensures
        match r {
            Ok(m) => spec_interpret_stop_script(service@, res.stdout@, res.stderr@, res.code as int)
                == Ok::<Seq<char>, Seq<char>>(m@),
            Err(m) => spec_interpret_stop_script(
                service@,
                res.stdout@,
                res.stderr@,
                res.code as int,
            ) == Err::<Seq<char>, Seq<char>>(m@),
        },
{
    let out = to_chars(res.stdout.as_str());
    let t = trim_chars(&out);
    if res.code == 0 {
        if t.len() == 0 {
            let mut m: Vec<char> = Vec::new();
            append_str(&mut m, "Service ");
            append_str(&mut m, service);
            append_str(&mut m, " stopped");
            Ok(string_from_chars(&m))
        } else {
            Ok(string_from_chars(&t))
        }
    } else {
        let p1 = to_chars("n'était pas en cours d'exécution");
        let p2 = to_chars("was not running");
        let p3 = to_chars("not found");
        if contains_chars(&out, &p1) || contains_chars(&out, &p2) || contains_chars(&out, &p3) {
            Ok(string_from_chars(&t))
        } else {
            let mut m: Vec<char> = Vec::new();
            append_str(&mut m, "Failed to stop service ");
            append_str(&mut m, service);
            append_str(&mut m, ": ");
            append_str(&mut m, res.stderr.as_str());
            Err(string_from_chars(&m))
        }
    }
}

/// How the zombie sweep's outcome reads: a clean exit succeeds with the
/// sweep's output; anything else fails, naming its error output.
pub fn interpret_zombies_result(res: &ScriptResult) -> (r: Result<String, String>)
    ensures
        res.code == 0 ==> (r matches Ok(m) && m@ == res.stdout@),
        res.code != 0 ==> (r matches Err(m) && m@ == "Failed to kill zombies: "@ + res.stderr@),
{
    if res.code == 0 {
        Ok(res.stdout.clone())
    } else {
        let mut m: Vec<char> = Vec::new();
        append_str(&mut m, "Failed to kill zombies: ");
        append_str(&mut m, res.stderr.as_str());
        Err(string_from_chars(&m))
    }
}

/// The view of an optional script result.
pub open spec fn script_view(s: Option<ScriptResult>) -> Option<(Seq<char>, Seq<char>, int)> {
    match s {
        Some(r) => Some((r.stdout@, r.stderr@, r.code as int)),
        None => None,
    }
}

/// What a stop returns, for every way the world can answer. A tracked pid
/// is escalated and the terminal state decides; otherwise a resolved stop
/// script's outcome is interpreted; otherwise an untracked match is
/// escalated; with nothing to stop, a known service's stop succeeds
/// (idempotence), while an unknown service name is a configuration error,
/// reported immediately.
pub open spec fn spec_stop_outcome(
    service: Seq<char>,
    prior: Option<u32>,
    esc: Option<EscalationState>,
    script: Option<(Seq<char>, Seq<char>, int)>,
    matched: Option<u32>,
    pesc: Option<EscalationState>,
) -> Result<Seq<char>, Seq<char>> {
    match prior {
        Some(pid) => {
            if esc == Some(EscalationState::Confirmed) {
                Ok(spec_stopped_pid_msg(service, pid))
            } else {
                Err(spec_kill_failed_msg(pid))
            }
        },
        None => match script {
            Some((out, err, code)) => spec_interpret_stop_script(service, out, err, code),
            None => match matched {
                Some(pid) => {
                    if pesc == Some(EscalationState::Confirmed) {
                        Ok(spec_stopped_pid_msg(service, pid))
                    } else {
                        Err(spec_kill_failed_msg(pid))
                    }
                },
                None => {
                    if spec_known_service(service) {
                        Ok(spec_not_running_msg(service))
                    } else {
                        Err(unknown_service_msg(service))
                    }
                },
            },
        },
    }
}

/// Completes a stop: interprets what the environment observed and removes
/// any registry entry for the service, whether or not the stop succeeded —
/// the registry must never keep a pid it cannot influence. A name outside
/// the known services is stopped by its tracked pid if one exists;
/// otherwise it is refused as unknown.
///
/// `esc` is the terminal escalation state for the tracked pid (exactly
/// when one was tracked); `script` the stop script's outcome when no pid
/// was tracked but a script resolved; `matched`/`pesc` the untracked
/// process found by pattern matching and its escalation, when neither a
/// tracked pid nor a script existed.
pub fn stop_service_run(
    state: &mut AppState,
    service: &str,
    esc: Option<EscalationState>,
    script: Option<ScriptResult>,
    matched: Option<u32>,
    pesc: Option<EscalationState>,
) -> (r: Result<String, String>)
    requires
        old(state).wf(),
        (old(state).spec_get(service@) is Some) == (esc is Some),
        esc is Some ==> script is None && matched is None && pesc is None,
        script is Some ==> matched is None && pesc is None,
        (matched is Some) == (pesc is Some),
    ensures
        final(state).wf(),
        final(state).spec_get(service@) is None,
        forall|k: Seq<char>|
            k != service@ ==> #[trigger] final(state).spec_get(k) == old(state).spec_get(k),
        ({
            let outcome = spec_stop_outcome(
                service@,
                old(state).spec_get(service@),
                esc,
                script_view(script),
                matched,
                pesc,
            );
            match r {
                Ok(m) => outcome == Ok::<Seq<char>, Seq<char>>(m@),
                Err(m) => outcome == Err::<Seq<char>, Seq<char>>(m@),
            }
        }),
{
    let prior = state.remove_pid(service);
    match prior {
        Some(pid) => {
            let confirmed = match esc {
                Some(s) => matches!(s, EscalationState::Confirmed),
                None => false,
            };
            if confirmed {
                Ok(stopped_pid_msg(service, pid))
            } else {
                Err(kill_failed_msg(pid))
            }
        },
        None => match script {
            Some(res) => interpret_stop_script(service, &res),
            None => match matched {
                Some(pid) => {
                    let confirmed = match pesc {
                        Some(s) => matches!(s, EscalationState::Confirmed),
                        None => false,
                    };
                    if confirmed {
                        Ok(stopped_pid_msg(service, pid))
                    } else {
                        Err(kill_failed_msg(pid))
                    }
                },
                None => {
                    if str_eq(service, "tunnel") || str_eq(service, "backend") || str_eq(
                        service,
                        "frontend",
                    ) || str_eq(service, "netdata") {
                        let mut m: Vec<char> = Vec::new();
                        append_str(&mut m, "Service ");
                        append_str(&mut m, service);
                        append_str(&mut m, " was not running");
                        Ok(string_from_chars(&m))
                    } else {
                        let mut m: Vec<char> = Vec::new();
                        append_str(&mut m, "Unknown service: ");
                        append_str(&mut m, service);
                        Err(string_from_chars(&m))
                    }
                },
            },
        },
    }
}

/// Stopping a known service that nothing runs succeeds: with no tracked
/// pid, no process matched, and a stop script that either exited cleanly
/// or reported the service as not running (or no script at all), the stop
/// returns success. Together with `stop_service_run` clearing the
/// registry, a second stop in a stopped world never errors. (An unknown
/// service name is a configuration error instead, so it stands outside
/// this law.)
pub proof fn lemma_stop_idempotent(
    service: Seq<char>,
    script: Option<(Seq<char>, Seq<char>, int)>,
)
    requires
        match script {
            Some((out, err, code)) => code == 0 || contains_seq(
                out,
                "n'était pas en cours d'exécution"@,
            ) || contains_seq(out, "was not running"@) || contains_seq(out, "not found"@),
            None => spec_known_service(service),
        },
    ensures
        spec_stop_outcome(service, None, None, script, None, None) is Ok,
{
}

/// Answers a liveness check for one tracked service: a dead pid is evicted
/// (the registry self-heals), a live one reports running.
pub fn reconcile_service(state: &mut AppState, service: &str, alive: bool) -> (running: bool)
    requires
        old(state).wf(),
    ensures
        final(state).wf(),
        running == (alive && old(state).spec_get(service@) is Some),
        !alive ==> final(state).spec_get(service@) is None,
        alive ==> *final(state) == *old(state),
        forall|k: Seq<char>|
            k != service@ ==> #[trigger] final(state).spec_get(k) == old(state).spec_get(k),
{
    if alive {
        match state.get_pid(service) {
            Some(_) => true,
            None => false,
        }
    } else {
        state.remove_pid(service);
        false
    }
}

/// The views of aggregated (service, outcome) pairs.
pub open spec fn outcome_views(v: Seq<(String, Result<String, String>)>) -> Seq<
    (Seq<char>, Result<Seq<char>, Seq<char>>),
> {
    v.map_values(
        |p: (String, Result<String, String>)|
            (
                p.0@,
                match p.1 {
                    Ok(m) => Ok(m@),
                    Err(m) => Err(m@),
                },
            ),
    )
}

/// Whether every outcome succeeded.
pub open spec fn all_ok(outcomes: Seq<(Seq<char>, Result<Seq<char>, Seq<char>>)>) -> bool {
    forall|i: int| 0 <= i < outcomes.len() ==> (#[trigger] outcomes[i]).1 is Ok
}

/// The "`service`: `message`" lines of the successful outcomes, in order.
pub open spec fn ok_lines(outcomes: Seq<(Seq<char>, Result<Seq<char>, Seq<char>>)>) -> Seq<
    Seq<char>,
>
    decreases outcomes.len(),
{
    if outcomes.len() == 0 {
        Seq::empty()
    } else {
        let rest = ok_lines(outcomes.drop_first());
        match outcomes.first().1 {
            Ok(m) => seq![outcomes.first().0 + ": "@ + m] + rest,
            Err(_) => rest,
        }
    }
}

/// The "`service`: `error`" lines of the failed outcomes, in order.
pub open spec fn err_lines(outcomes: Seq<(Seq<char>, Result<Seq<char>, Seq<char>>)>) -> Seq<
    Seq<char>,
>
    decreases outcomes.len(),
{
    if outcomes.len() == 0 {
        Seq::empty()
    } else {
        let rest = err_lines(outcomes.drop_first());
        match outcomes.first().1 {
            Ok(_) => rest,
            Err(m) => seq![outcomes.first().0 + ": "@ + m] + rest,
        }
    }
}

/// The bulk stop's report: success lists every outcome; failure lists
/// exactly the successes and the failures, each with its message.
pub open spec fn spec_aggregate(outcomes: Seq<(Seq<char>, Result<Seq<char>, Seq<char>>)>)
    -> Result<Seq<char>, Seq<char>> {
    if all_ok(outcomes) {
        Ok("All services stopped successfully.\n"@ + spec_join_sep(ok_lines(outcomes), '\n'))
    } else {
        Err(
            "Some services failed to stop.\nStopped:\n"@ + spec_join_sep(ok_lines(outcomes), '\n')
                + "\n\nErrors:\n"@ + spec_join_sep(err_lines(outcomes), '\n'),
        )
    }
}

proof fn lemma_ok_lines_push(
    outcomes: Seq<(Seq<char>, Result<Seq<char>, Seq<char>>)>,
    e: (Seq<char>, Result<Seq<char>, Seq<char>>),
)
    ensures
        ok_lines(outcomes.push(e)) == ok_lines(outcomes) + (match e.1 {
            Ok(m) => seq![e.0 + ": "@ + m],
            Err(_) => Seq::<Seq<char>>::empty(),
        }),
        err_lines(outcomes.push(e)) == err_lines(outcomes) + (match e.1 {
            Ok(_) => Seq::<Seq<char>>::empty(),
            Err(m) => seq![e.0 + ": "@ + m],
        }),
    decreases outcomes.len(),
{
    let tail_ok = match e.1 {
        Ok(m) => seq![e.0 + ": "@ + m],
        Err(_) => Seq::<Seq<char>>::empty(),
    };
    let tail_err = match e.1 {
        Ok(_) => Seq::<Seq<char>>::empty(),
        Err(m) => seq![e.0 + ": "@ + m],
    };
    if outcomes.len() == 0 {
        assert(outcomes.push(e).first() == e);
        assert(outcomes.push(e).drop_first() =~= Seq::<
            (Seq<char>, Result<Seq<char>, Seq<char>>),
        >::empty());
        assert(ok_lines(outcomes.push(e).drop_first()) == Seq::<Seq<char>>::empty());
        assert(err_lines(outcomes.push(e).drop_first()) == Seq::<Seq<char>>::empty());
        assert(ok_lines(outcomes) == Seq::<Seq<char>>::empty());
        assert(err_lines(outcomes) == Seq::<Seq<char>>::empty());
        assert(ok_lines(outcomes.push(e)) =~~= ok_lines(outcomes) + tail_ok);
        assert(err_lines(outcomes.push(e)) =~~= err_lines(outcomes) + tail_err);
    } else {
        assert(outcomes.push(e).first() == outcomes.first());
        assert(outcomes.push(e).drop_first() =~= outcomes.drop_first().push(e));
        lemma_ok_lines_push(outcomes.drop_first(), e);
        assert(ok_lines(outcomes.drop_first().push(e)) == ok_lines(outcomes.drop_first())
            + tail_ok);
        assert(err_lines(outcomes.drop_first().push(e)) == err_lines(outcomes.drop_first())
            + tail_err);
        match outcomes.first().1 {
            Ok(m0) => {
                assert(ok_lines(outcomes.push(e)) == seq![outcomes.first().0 + ": "@ + m0]
                    + ok_lines(outcomes.drop_first().push(e)));
                assert(ok_lines(outcomes) == seq![outcomes.first().0 + ": "@ + m0] + ok_lines(
                    outcomes.drop_first(),
                ));
                assert(ok_lines(outcomes.push(e)) =~~= ok_lines(outcomes) + tail_ok);
                assert(err_lines(outcomes.push(e)) =~~= err_lines(outcomes) + tail_err);
            },
            Err(m0) => {
                assert(err_lines(outcomes.push(e)) == seq![outcomes.first().0 + ": "@ + m0]
                    + err_lines(outcomes.drop_first().push(e)));
                assert(err_lines(outcomes) == seq![outcomes.first().0 + ": "@ + m0] + err_lines(
                    outcomes.drop_first(),
                ));
                assert(ok_lines(outcomes.push(e)) =~~= ok_lines(outcomes) + tail_ok);
                assert(err_lines(outcomes.push(e)) =~~= err_lines(outcomes) + tail_err);
            },
        }
    }
}

/// Builds one "`service`: `message`" line.
fn outcome_line(service: &String, msg: &String) -> (r: String)
    ensures
        r@ == service@ + ": "@ + msg@,
{
    let mut m: Vec<char> = Vec::new();
    append_str(&mut m, service.as_str());
    append_str(&mut m, ": ");
    append_str(&mut m, msg.as_str());
    string_from_chars(&m)
}

/// Aggregates the per-service outcomes of a bulk stop: the call fails if
/// and only if some service could not be confirmed stopped, and the report
/// lists exactly the successes and the failures.
pub fn aggregate_stop_results(outcomes: &Vec<(String, Result<String, String>)>) -> (r: Result<
    String,
    String,
>)
    ensures
        (r is Ok) == all_ok(outcome_views(outcomes@)),
        match r {
            Ok(m) => spec_aggregate(outcome_views(outcomes@)) == Ok::<Seq<char>, Seq<char>>(m@),
            Err(m) => spec_aggregate(outcome_views(outcomes@)) == Err::<Seq<char>, Seq<char>>(m@),
        },
{
    let ghost ov = outcome_views(outcomes@);
    let mut stopped: Vec<String> = Vec::new();
    let mut errors: Vec<String> = Vec::new();
    let mut i: usize = 0;
    while i < outcomes.len()
        invariant
            i <= outcomes@.len(),
            ov == outcome_views(outcomes@),
            ov.len() == outcomes@.len(),
            stopped@.map_values(|s: String| s@) =~~= ok_lines(ov.take(i as int)),
            errors@.map_values(|s: String| s@) =~~= err_lines(ov.take(i as int)),
        decreases outcomes@.len() - i,
    {
        let ghost prev_stopped = stopped@;
        let ghost prev_errors = errors@;
        match &outcomes[i].1 {
            Ok(m) => {
                stopped.push(outcome_line(&outcomes[i].0, m));
            },
            Err(m) => {
                errors.push(outcome_line(&outcomes[i].0, m));
            },
        }
        proof {
            lemma_ok_lines_push(ov.take(i as int), ov[i as int]);
            assert(ov.take(i + 1) =~= ov.take(i as int).push(ov[i as int]));
            assert(stopped@.map_values(|s: String| s@) =~~= ok_lines(ov.take(i + 1)));
            assert(errors@.map_values(|s: String| s@) =~~= err_lines(ov.take(i + 1)));
        }
        i += 1;
    }
    proof {
        assert(ov.take(outcomes@.len() as int) =~= ov);
    }
    if errors.len() == 0 {
        proof {
            assert forall|j: int| 0 <= j < ov.len() implies (#[trigger] ov[j]).1 is Ok by {
                if ov[j].1 is Err {
                    lemma_err_lines_nonempty(ov, j);
                }
            }
        }
        let mut m: Vec<char> = Vec::new();
        append_str(&mut m, "All services stopped successfully.\n");
        append_joined(&mut m, &stopped, '\n');
        Ok(string_from_chars(&m))
    } else {
        proof {
            assert(err_lines(ov).len() > 0);
            lemma_err_lines_witness(ov);
        }
        let mut m: Vec<char> = Vec::new();
        append_str(&mut m, "Some services failed to stop.\nStopped:\n");
        append_joined(&mut m, &stopped, '\n');
        append_str(&mut m, "\n\nErrors:\n");
        append_joined(&mut m, &errors, '\n');
        Err(string_from_chars(&m))
    }
}

/// A failed outcome contributes an error line.
proof fn lemma_err_lines_nonempty(
    outcomes: Seq<(Seq<char>, Result<Seq<char>, Seq<char>>)>,
    j: int,
)
    requires
        0 <= j < outcomes.len(),
        outcomes[j].1 is Err,
    ensures
        err_lines(outcomes).len() > 0,
    decreases j,
{
    if j > 0 {
        lemma_err_lines_nonempty(outcomes.drop_first(), j - 1);
    }
}

/// A nonempty error list means some outcome failed.
proof fn lemma_err_lines_witness(outcomes: Seq<(Seq<char>, Result<Seq<char>, Seq<char>>)>)
    requires
        err_lines(outcomes).len() > 0,
    ensures
        !all_ok(outcomes),
    decreases outcomes.len(),
{
    if outcomes.len() > 0 {
        if outcomes.first().1 is Err {
            assert(outcomes[0].1 is Err);
        } else {
            lemma_err_lines_witness(outcomes.drop_first());
            let j = choose|j: int|
                0 <= j < outcomes.drop_first().len() && !((#[trigger] outcomes.drop_first()[j]).1
                    is Ok);
            assert(outcomes[j + 1].1 is Err);
        }
    }
}

/// The commands the generic runner refuses outright.
pub open spec fn danger_list() -> Seq<Seq<char>> {
    seq![
        "rm -rf"@,
        "rm -r"@,
        "rm -f"@,
        "dd if="@,
        "mkfs"@,
        "fdisk"@,
        "shutdown"@,
        "reboot"@,
        "halt"@,
        "sudo"@,
        "su "@,
        "passwd"@,
    ]
}

/// "Commande dangereuse bloquée: `d`".
pub open spec fn spec_blocked_msg(danger: Seq<char>) -> Seq<char> {
    "Commande dangereuse bloquée: "@ + danger
}

/// Refuses a command whose lower-cased text contains a dangerous phrase;
/// the error names the first phrase, in list order, that occurs.
pub fn check_command_safety(cmd: &str) -> (r: Result<(), String>)
    ensures
        match r {
            Ok(_) => forall|i: int|
                0 <= i < danger_list().len() ==> !contains_seq(
                    lower_seq(cmd@),
                    #[trigger] danger_list()[i],
                ),
            Err(m) => exists|i: int|
                0 <= i < danger_list().len() && contains_seq(
                    lower_seq(cmd@),
                    #[trigger] danger_list()[i],
                ) && m@ == spec_blocked_msg(danger_list()[i]) && forall|j: int|
                    0 <= j < i ==> !contains_seq(lower_seq(cmd@), danger_list()[j]),
        },
{
    let dangers: Vec<&str> = vec![
        "rm -rf",
        "rm -r",
        "rm -f",
        "dd if=",
        "mkfs",
        "fdisk",
        "shutdown",
        "reboot",
        "halt",
        "sudo",
        "su ",
        "passwd",
    ];
    let ghost dv = dangers@.map_values(|s: &str| s@);
    proof {
        assert(dv =~= danger_list());
    }
    let lc = lower_str(cmd);
    let mut i: usize = 0;
    while i < dangers.len()
        invariant
            i <= dangers@.len(),
            dv == dangers@.map_values(|s: &str| s@),
            dv == danger_list(),
            dv.len() == dangers@.len(),
            lc@ == lower_seq(cmd@),
            forall|j: int| 0 <= j < i ==> !contains_seq(lower_seq(cmd@), #[trigger] dv[j]),
        decreases dangers@.len() - i,
    {
        let d = to_chars(dangers[i]);
        if contains_chars(&lc, &d) {
            let mut m: Vec<char> = Vec::new();
            append_str(&mut m, "Commande dangereuse bloquée: ");
            append_str(&mut m, dangers[i]);
            return Err(string_from_chars(&m));
        }
        i += 1;
    }
    Ok(())
}

} // verus!
