//! Status reporting for the calling layer: the aggregate service flags,
//! per-service status rows for a project, the legacy project listing, and
//! the decisions of the per-project start/stop operations.

use vstd::prelude::*;
use crate::orchestrator::{
    spec_kill_failed_msg, spec_not_running_msg, spec_stopped_msg, spec_stopped_pid_msg,
};
use crate::store::ProjectConfig;
use crate::text::{
    append_str, push_u64_digits, spec_split_ws, split_ws, str_eq,
    string_from_chars, to_chars, starts_with_seq, starts_with_chars,
};

verus! {

/// Whether each of the four services is up, per the tracked pids.
#[derive(Debug, Clone)]
pub struct ServicesStatus {
    pub tunnel: bool,
    pub backend: bool,
    pub frontend: bool,
    pub netdata: bool,
}

/// One service of a listed project, in the listing's shape.
#[derive(Debug, Clone)]
pub struct ProjectService {
    pub name: String,
    pub port: u16,
    pub command: String,
}

/// A listed project, in the listing's shape.
#[derive(Debug, Clone)]
pub struct Project {
    pub name: String,
    pub path: String,
    pub stack: String,
    pub services: Vec<ProjectService>,
}

/// One row of a project's status report.
#[derive(Debug, Clone)]
pub struct ServiceStatus {
    pub name: String,
    pub port: u16,
    pub status: String,
    pub pid: Option<u32>,
}

/// The services a registered project exposes in the listing: the tunnel
/// with no port, then backend and frontend with their configured or
/// default ports; the monitoring daemon is global and not listed.
pub open spec fn spec_legacy_services(p: crate::store::Project) -> Seq<(Seq<char>, u16, Seq<char>)> {
    (match p.services.tunnel {
        Some(t) => seq![("tunnel"@, 0u16, t.start@)],
        None => Seq::<(Seq<char>, u16, Seq<char>)>::empty(),
    }) + (match p.services.backend {
        Some(b) => seq![
            (
                "backend"@,
                match b.port {
                    Some(port) => port,
                    None => 3010u16,
                },
                b.start@,
            ),
        ],
        None => Seq::<(Seq<char>, u16, Seq<char>)>::empty(),
    }) + (match p.services.frontend {
        Some(f) => seq![
            (
                "frontend"@,
                match f.port {
                    Some(port) => port,
                    None => 3000u16,
                },
                f.start@,
            ),
        ],
        None => Seq::<(Seq<char>, u16, Seq<char>)>::empty(),
    })
}

/// The view of a listed service row.
pub open spec fn service_views(v: Seq<ProjectService>) -> Seq<(Seq<char>, u16, Seq<char>)> {
    v.map_values(|s: ProjectService| (s.name@, s.port, s.command@))
}

/// Converts one registered project to the listing's shape: the backend
/// path stands in for the project path and the stack label is fixed.
pub fn project_to_legacy(p: &crate::store::Project) -> (r: Project)
    ensures
        r.name@ == p.name@,
        r.path@ == p.backend_path@,
        r.stack@ == "Custom"@,
        service_views(r.services@) == spec_legacy_services(*p),
{
    let mut services: Vec<ProjectService> = Vec::new();
    match &p.services.tunnel {
        Some(t) => {
            services.push(
                ProjectService {
                    name: String::from_str("tunnel"),
                    port: 0,
                    command: t.start.clone(),
                },
            );
        },
        None => {},
    }
    let ghost after_tunnel = service_views(services@);
    match &p.services.backend {
        Some(b) => {
            let port = match b.port {
                Some(port) => port,
                None => 3010,
            };
            services.push(
                ProjectService {
                    name: String::from_str("backend"),
                    port,
                    command: b.start.clone(),
                },
            );
        },
        None => {},
    }
    let ghost after_backend = service_views(services@);
    match &p.services.frontend {
        Some(f) => {
            let port = match f.port {
                Some(port) => port,
                None => 3000,
            };
            services.push(
                ProjectService {
                    name: String::from_str("frontend"),
                    port,
                    command: f.start.clone(),
                },
            );
        },
        None => {},
    }
    proof {
        assert(service_views(services@) =~~= spec_legacy_services(*p));
    }
    Project {
        name: p.name.clone(),
        path: p.backend_path.clone(),
        stack: String::from_str("Custom"),
        services,
    }
}

/// Converts the whole registry to the listing's shape.
pub fn projects_to_legacy(config: &ProjectConfig) -> (r: Vec<Project>)
    ensures
        r@.len() == config.projects@.len(),
        forall|i: int|
            0 <= i < r@.len() ==> {
                let p = config.projects@[i];
                &&& (#[trigger] r@[i]).name@ == p.name@
                &&& r@[i].path@ == p.backend_path@
                &&& r@[i].stack@ == "Custom"@
                &&& service_views(r@[i].services@) == spec_legacy_services(p)
            },
{
    let mut r: Vec<Project> = Vec::new();
    let mut i: usize = 0;
    while i < config.projects.len()
        invariant
            i <= config.projects@.len(),
            r@.len() == i,
            forall|j: int|
                0 <= j < i ==> {
                    let p = config.projects@[j];
                    &&& (#[trigger] r@[j]).name@ == p.name@
                    &&& r@[j].path@ == p.backend_path@
                    &&& r@[j].stack@ == "Custom"@
                    &&& service_views(r@[j].services@) == spec_legacy_services(p)
                },
        decreases config.projects@.len() - i,
    {
        r.push(project_to_legacy(&config.projects[i]));
        i += 1;
    }
    r
}

/// One status row.
fn status_row(name: &str, port: u16, running: bool, pid: Option<u32>) -> (r: ServiceStatus)
    ensures
        r.name@ == name@,
        r.port == port,
        running ==> r.status@ == "RUNNING"@,
        !running ==> r.status@ == "STOPPED"@,
        r.pid == pid,
{
    ServiceStatus {
        name: String::from_str(name),
        port,
        status: crate::probe::status_label(running),
        pid,
    }
}

/// The status rows of a project's configured services: a tunnel row judged
/// by a live SSH process, then a backend and a frontend row judged by
/// whether their port answers; a port's pid is only reported while the
/// port is open.
pub fn assemble_project_statuses(
    project: &crate::store::Project,
    tunnel_pid: Option<u32>,
    backend_open: bool,
    backend_pid: Option<u32>,
    frontend_open: bool,
    frontend_pid: Option<u32>,
) -> (r: Vec<ServiceStatus>)
    ensures
        ({
            let rows = r@;
            let want_tunnel = project.services.tunnel is Some;
            let want_backend = project.services.backend matches Some(b) && b.port is Some;
            let want_frontend = project.services.frontend matches Some(f) && f.port is Some;
            let n_tunnel: int = if want_tunnel {
                1int
            } else {
                0int
            };
            let n_backend: int = if want_backend {
                1int
            } else {
                0int
            };
            let n_frontend: int = if want_frontend {
                1int
            } else {
                0int
            };
            &&& rows.len() == n_tunnel + n_backend + n_frontend
            &&& want_tunnel ==> {
                let row = rows[0];
                &&& row.name@ == "tunnel"@
                &&& row.port == 0
                &&& row.status@ == (if tunnel_pid is Some {
                    "RUNNING"@
                } else {
                    "STOPPED"@
                })
                &&& row.pid == tunnel_pid
            }
            &&& want_backend ==> {
                let row = rows[n_tunnel];
                &&& row.name@ == "backend"@
                &&& row.port == project.services.backend->0.port->0
                &&& row.status@ == (if backend_open {
                    "RUNNING"@
                } else {
                    "STOPPED"@
                })
                &&& row.pid == (if backend_open {
                    backend_pid
                } else {
                    None::<u32>
                })
            }
            &&& want_frontend ==> {
                let row = rows[n_tunnel + n_backend];
                &&& row.name@ == "frontend"@
                &&& row.port == project.services.frontend->0.port->0
                &&& row.status@ == (if frontend_open {
                    "RUNNING"@
                } else {
                    "STOPPED"@
                })
                &&& row.pid == (if frontend_open {
                    frontend_pid
                } else {
                    None::<u32>
                })
            }
        }),
{
    let mut rows: Vec<ServiceStatus> = Vec::new();
    if config_has_tunnel(project) {
        rows.push(status_row("tunnel", 0, tunnel_pid.is_some(), tunnel_pid));
    }
    match &project.services.backend {
        Some(b) => match b.port {
            Some(port) => {
                let pid = if backend_open {
                    backend_pid
                } else {
                    None
                };
                rows.push(status_row("backend", port, backend_open, pid));
            },
            None => {},
        },
        None => {},
    }
    match &project.services.frontend {
        Some(f) => match f.port {
            Some(port) => {
                let pid = if frontend_open {
                    frontend_pid
                } else {
                    None
                };
                rows.push(status_row("frontend", port, frontend_open, pid));
            },
            None => {},
        },
        None => {},
    }
    rows
}

fn config_has_tunnel(project: &crate::store::Project) -> (r: bool)
    ensures
        r == (project.services.tunnel is Some),
{
    match &project.services.tunnel {
        Some(_) => true,
        None => false,
    }
}

/// The directory a project service runs in: the frontend in its own path,
/// everything else in the backend path.
pub fn service_work_dir(project: &crate::store::Project, service_name: &str) -> (r: String)
    ensures
        service_name@ == "frontend"@ ==> r@ == project.frontend_path@,
        service_name@ != "frontend"@ ==> r@ == project.backend_path@,
{
    if str_eq(service_name, "frontend") {
        project.frontend_path.clone()
    } else {
        project.backend_path.clone()
    }
}

/// An absolute command (or one rooted at the home directory) stands as it
/// is; a relative one is resolved under the scripts directory.
pub open spec fn spec_resolve_command(scripts_path: Seq<char>, command: Seq<char>) -> Seq<char> {
    if command.len() >= 1 && command[0] == '/' || starts_with_seq(command, seq!['~', '/']) {
        command
    } else if scripts_path.len() >= 1 && scripts_path.last() == '/' {
        scripts_path + command
    } else {
        scripts_path + seq!['/'] + command
    }
}

/// Resolves a configured command against the scripts directory.
pub fn resolve_command_path(scripts_path: &str, command: &str) -> (r: String)
    ensures
        r@ == spec_resolve_command(scripts_path@, command@),
{
    let cv = to_chars(command);
    let mut home: Vec<char> = Vec::new();
    home.push('~');
    home.push('/');
    assert(home@ =~= seq!['~', '/']);
    let absolute = (cv.len() >= 1 && cv[0] == '/') || starts_with_chars(&cv, &home);
    if absolute {
        return String::from_str(command);
    }
    let sv = to_chars(scripts_path);
    let mut out: Vec<char> = Vec::new();
    append_str(&mut out, scripts_path);
    if !(sv.len() >= 1 && sv[sv.len() - 1] == '/') {
        out.push('/');
    }
    append_str(&mut out, command);
    proof {
        if sv@.len() >= 1 && sv@.last() == '/' {
            assert(out@ =~= scripts_path@ + command@);
        } else {
            assert(out@ =~= scripts_path@ + seq!['/'] + command@);
        }
    }
    string_from_chars(&out)
}

/// Splits a command line into program and arguments; an empty command is
/// refused.
pub fn split_command(cmd: &str) -> (r: Result<(String, Vec<String>), String>)
    ensures
        ({
            let parts = spec_split_ws(cmd@);
            match r {
                Ok((prog, args)) => parts.len() > 0 && prog@ == parts.first() && args@.len()
                    == parts.len() - 1 && forall|i: int|
                    0 <= i < args@.len() ==> (#[trigger] args@[i])@ == parts[i + 1],
                Err(m) => parts.len() == 0 && m@ == "Command is empty"@,
            }
        }),
{
    let cv = to_chars(cmd);
    let parts = split_ws(&cv);
    let ghost pv = parts@.map_values(|v: Vec<char>| v@);
    if parts.len() == 0 {
        return Err(String::from_str("Command is empty"));
    }
    let prog = string_from_chars(&parts[0]);
    let mut args: Vec<String> = Vec::new();
    let mut i: usize = 1;
    while i < parts.len()
        invariant
            1 <= i <= parts@.len(),
            pv == parts@.map_values(|v: Vec<char>| v@),
            pv.len() == parts@.len(),
            args@.len() == i - 1,
            forall|j: int| 0 <= j < i - 1 ==> (#[trigger] args@[j])@ == pv[j + 1],
        decreases parts@.len() - i,
    {
        args.push(string_from_chars(&parts[i]));
        i += 1;
    }
    Ok((prog, args))
}

/// The tunnel's stop script succeeded: the tunnel is reported stopped; a
/// failing script falls through to the process-matching path.
pub fn interpret_tunnel_script(success: bool) -> (r: Option<String>)
    ensures
        success ==> (r matches Some(m) && m@ == "Tunnel SSH stopped"@),
        !success ==> r is None,
{
    if success {
        Some(String::from_str("Tunnel SSH stopped"))
    } else {
        None
    }
}

/// How the tunnel's pattern kill reads: running it at all settles the stop
/// — finding no process (exit code one) already means stopped.
pub fn interpret_tunnel_pkill(ran: bool, success: bool, code: Option<i32>) -> (r: String)
    ensures
        (ran && (success || code == Some(1i32))) ==> r@ == "Tunnel SSH stopped or was not running"@,
        !(ran && (success || code == Some(1i32))) ==> r@ == "Tunnel SSH was not running"@,
{
    let hit = match code {
        Some(c) => c == 1,
        None => false,
    };
    if ran && (success || hit) {
        String::from_str("Tunnel SSH stopped or was not running")
    } else {
        String::from_str("Tunnel SSH was not running")
    }
}

/// How killing by port reads: a delivered kill stops the service; a
/// refused one is a failure naming the process.
pub fn interpret_kill_by_port(service_name: &str, pid: u32, success: bool) -> (r: Result<
    String,
    String,
>)
    ensures
        success ==> (r matches Ok(m) && m@ == spec_stopped_pid_msg(service_name@, pid)),
        !success ==> (r matches Err(m) && m@ == spec_kill_failed_msg(pid)),
{
    if success {
        let mut m: Vec<char> = Vec::new();
        append_str(&mut m, "Service ");
        append_str(&mut m, service_name);
        append_str(&mut m, " stopped (PID: ");
        push_u64_digits(pid as u64, &mut m);
        append_str(&mut m, ")");
        Ok(string_from_chars(&m))
    } else {
        let mut m: Vec<char> = Vec::new();
        append_str(&mut m, "Failed to kill process ");
        push_u64_digits(pid as u64, &mut m);
        Err(string_from_chars(&m))
    }
}

/// How the monitoring daemon's stop reads: the service manager first, a
/// pattern kill second, and a daemon that was not running still counts as
/// stopped.
pub fn interpret_netdata_stop(stopped_via_manager: bool, pkill_success: bool) -> (r: String)
    ensures
        stopped_via_manager ==> r@ == "Service netdata stopped via systemctl"@,
        (!stopped_via_manager && pkill_success) ==> r@ == "Service netdata stopped"@,
        (!stopped_via_manager && !pkill_success) ==> r@ == "Service netdata was not running"@,
{
    if stopped_via_manager {
        String::from_str("Service netdata stopped via systemctl")
    } else if pkill_success {
        String::from_str("Service netdata stopped")
    } else {
        String::from_str("Service netdata was not running")
    }
}

/// How a generic pattern kill reads: both outcomes mean the service is no
/// longer running, so both succeed.
pub fn interpret_generic_pkill(service_name: &str, success: bool) -> (r: String)
    ensures
        success ==> r@ == spec_stopped_msg(service_name@),
        !success ==> r@ == spec_not_running_msg(service_name@),
{
    let mut m: Vec<char> = Vec::new();
    append_str(&mut m, "Service ");
    append_str(&mut m, service_name);
    if success {
        append_str(&mut m, " stopped");
    } else {
        append_str(&mut m, " was not running");
    }
    string_from_chars(&m)
}

} // verus!
