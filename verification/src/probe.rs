//! The liveness prober: whether a named service is running, decided from
//! the system's process table rather than from tracked pids alone, because
//! services may have been started outside this system.
//!
//! The process table snapshot comes from the operating system and differs
//! from call to call, so the matching rules are stated — and verified —
//! over a snapshot handed in as a value.

use vstd::prelude::*;
use crate::envs::{spec_forward_pattern, tunnel_forward_pattern};
use crate::project::ProjectV3;
use crate::text::{
    all_digits, contains_chars, contains_seq, digits_value, lower_seq, lower_str, spec_digits,
    spec_find, spec_lines, spec_trim, split_lines, str_eq, string_from_chars, to_chars, trim_chars,
    parse_u32, append_str, subrange_chars,
};
use crate::ports::{spec_upto_char, upto_char};

verus! {

/// One process-table entry: the image name and the command line, the
/// latter joined into one string.
#[derive(Debug, Clone)]
pub struct ProcessInfo {
    pub name: String,
    pub cmd: String,
}

/// Relies on sysinfo's `System::new_all`, `refresh_all` and `processes`
/// for the current process table; each process is reduced to its image
/// name and its command line joined with single spaces. The table depends
/// on the machine's momentary state, so nothing is assumed of the value.
#[verifier::external_body]
pub fn process_snapshot() -> Vec<ProcessInfo> {
    let mut system = sysinfo::System::new_all();
    system.refresh_all();
    let to_info = |p: &sysinfo::Process| ProcessInfo {
        name: p.name().to_string_lossy().to_string(),
        cmd: p.cmd().iter().map(|a| a.to_string_lossy().to_string()).collect::<Vec<String>>().join(
            " ",
        ),
    };
    system.processes().values().map(to_info).collect()
}

/// A backend process: a relevant runtime by image name, and a command line
/// naming both the project's backend path and its port.
pub open spec fn spec_matches_backend(p: ProjectV3, name: Seq<char>, cmd: Seq<char>) -> bool {
    let ln = lower_seq(name);
    let lc = lower_seq(cmd);
    (contains_seq(ln, "node"@) || contains_seq(ln, "pnpm"@)) && contains_seq(
        lc,
        lower_seq(p.backend_path@),
    ) && contains_seq(lc, spec_digits(p.ports.backend as nat))
}

/// A frontend process, by the same dual condition with the frontend's
/// path and port.
pub open spec fn spec_matches_frontend(p: ProjectV3, name: Seq<char>, cmd: Seq<char>) -> bool {
    let ln = lower_seq(name);
    let lc = lower_seq(cmd);
    (contains_seq(ln, "node"@) || contains_seq(ln, "pnpm"@)) && contains_seq(
        lc,
        lower_seq(p.frontend_path@),
    ) && contains_seq(lc, spec_digits(p.ports.frontend as nat))
}

/// A tunnel process: an SSH-family image whose command line carries the
/// project's specific port-forward pattern.
pub open spec fn spec_matches_tunnel(local: u16, remote: u16, name: Seq<char>, cmd: Seq<char>)
    -> bool {
    contains_seq(lower_seq(name), "ssh"@) && contains_seq(
        lower_seq(cmd),
        spec_forward_pattern(local, remote),
    )
}

/// A monitoring daemon process, by image name alone.
pub open spec fn spec_matches_netdata(name: Seq<char>) -> bool {
    contains_seq(lower_seq(name), "netdata"@)
}

/// Whether some snapshot entry is a backend process of `project`.
pub fn any_backend_match(project: &ProjectV3, procs: &Vec<ProcessInfo>) -> (r: bool)
    ensures
        r == exists|i: int|
            0 <= i < procs@.len() && spec_matches_backend(
                *project,
                procs@[i].name@,
                procs@[i].cmd@,
            ),
{
    let node = to_chars("node");
    let pnpm = to_chars("pnpm");
    let path = lower_str(project.backend_path.as_str());
    let mut port: Vec<char> = Vec::new();
    crate::text::push_u64_digits(project.ports.backend as u64, &mut port);
    let mut i: usize = 0;
    while i < procs.len()
        invariant
            i <= procs@.len(),
            node@ == "node"@,
            pnpm@ == "pnpm"@,
            path@ == lower_seq(project.backend_path@),
            port@ == spec_digits(project.ports.backend as nat),
            forall|j: int|
                0 <= j < i ==> !spec_matches_backend(*project, procs@[j].name@, procs@[j].cmd@),
        decreases procs@.len() - i,
    {
        let ln = lower_str(procs[i].name.as_str());
        let lc = lower_str(procs[i].cmd.as_str());
        if (contains_chars(&ln, &node) || contains_chars(&ln, &pnpm)) && contains_chars(&lc, &path)
            && contains_chars(&lc, &port) {
            return true;
        }
        i += 1;
    }
    false
}

/// Whether some snapshot entry is a frontend process of `project`.
pub fn any_frontend_match(project: &ProjectV3, procs: &Vec<ProcessInfo>) -> (r: bool)
    ensures
        r == exists|i: int|
            0 <= i < procs@.len() && spec_matches_frontend(
                *project,
                procs@[i].name@,
                procs@[i].cmd@,
            ),
{
    let node = to_chars("node");
    let pnpm = to_chars("pnpm");
    let path = lower_str(project.frontend_path.as_str());
    let mut port: Vec<char> = Vec::new();
    crate::text::push_u64_digits(project.ports.frontend as u64, &mut port);
    let mut i: usize = 0;
    while i < procs.len()
        invariant
            i <= procs@.len(),
            node@ == "node"@,
            pnpm@ == "pnpm"@,
            path@ == lower_seq(project.frontend_path@),
            port@ == spec_digits(project.ports.frontend as nat),
            forall|j: int|
                0 <= j < i ==> !spec_matches_frontend(*project, procs@[j].name@, procs@[j].cmd@),
        decreases procs@.len() - i,
    {
        let ln = lower_str(procs[i].name.as_str());
        let lc = lower_str(procs[i].cmd.as_str());
        if (contains_chars(&ln, &node) || contains_chars(&ln, &pnpm)) && contains_chars(&lc, &path)
            && contains_chars(&lc, &port) {
            return true;
        }
        i += 1;
    }
    false
}

/// Whether some snapshot entry is this tunnel's SSH process.
pub fn any_tunnel_match(local: u16, remote: u16, procs: &Vec<ProcessInfo>) -> (r: bool)
    ensures
        r == exists|i: int|
            0 <= i < procs@.len() && spec_matches_tunnel(
                local,
                remote,
                procs@[i].name@,
                procs@[i].cmd@,
            ),
{
    let ssh = to_chars("ssh");
    let pattern_str = tunnel_forward_pattern(local, remote);
    let pattern = to_chars(pattern_str.as_str());
    let mut i: usize = 0;
    while i < procs.len()
        invariant
            i <= procs@.len(),
            ssh@ == "ssh"@,
            pattern@ == spec_forward_pattern(local, remote),
            forall|j: int|
                0 <= j < i ==> !spec_matches_tunnel(local, remote, procs@[j].name@, procs@[j].cmd@),
        decreases procs@.len() - i,
    {
        let ln = lower_str(procs[i].name.as_str());
        let lc = lower_str(procs[i].cmd.as_str());
        if contains_chars(&ln, &ssh) && contains_chars(&lc, &pattern) {
            return true;
        }
        i += 1;
    }
    false
}

/// Whether some snapshot entry is the monitoring daemon.
pub fn any_netdata_match(procs: &Vec<ProcessInfo>) -> (r: bool)
    ensures
        r == exists|i: int| 0 <= i < procs@.len() && spec_matches_netdata(procs@[i].name@),
{
    let pat = to_chars("netdata");
    let mut i: usize = 0;
    while i < procs.len()
        invariant
            i <= procs@.len(),
            pat@ == "netdata"@,
            forall|j: int| 0 <= j < i ==> !spec_matches_netdata(procs@[j].name@),
        decreases procs@.len() - i,
    {
        let ln = lower_str(procs[i].name.as_str());
        if contains_chars(&ln, &pat) {
            return true;
        }
        i += 1;
    }
    false
}

/// Whether the project's backend is running, judged from the live process
/// table.
pub fn status_for_backend(project: &ProjectV3) -> bool {
    let procs = process_snapshot();
    any_backend_match(project, &procs)
}

/// Whether the project's frontend is running, judged from the live process
/// table.
pub fn status_for_frontend(project: &ProjectV3) -> bool {
    let procs = process_snapshot();
    any_frontend_match(project, &procs)
}

/// Whether the project's tunnel is running; a project without tunnel
/// parameters never counts as running.
pub fn status_for_tunnel(project: &ProjectV3) -> (r: bool)
    ensures
        project.tunnel is None ==> r == false,
{
    match &project.tunnel {
        Some(t) => {
            let procs = process_snapshot();
            any_tunnel_match(t.local_mongo, t.remote_mongo, &procs)
        },
        None => false,
    }
}

/// Whether the monitoring daemon is running anywhere on the machine.
pub fn status_for_netdata() -> bool {
    let procs = process_snapshot();
    any_netdata_match(&procs)
}

/// The label a liveness verdict reports.
pub fn status_label(running: bool) -> (r: String)
    ensures
        running ==> r@ == "RUNNING"@,
        !running ==> r@ == "STOPPED"@,
{
    if running {
        String::from_str("RUNNING")
    } else {
        String::from_str("STOPPED")
    }
}

/// The message for a service this system does not know.
pub open spec fn unknown_service_msg(service: Seq<char>) -> Seq<char> {
    "Unknown service: "@ + service
}

/// The liveness label for one of the known services of a project, or an
/// error naming an unknown service.
pub fn service_status(project: &ProjectV3, service: &str) -> (r: Result<String, String>)
    ensures
        (service@ == "backend"@ || service@ == "frontend"@ || service@ == "tunnel"@ || service@
            == "netdata"@) ==> (r matches Ok(l) && (l@ == "RUNNING"@ || l@ == "STOPPED"@)),
        !(service@ == "backend"@ || service@ == "frontend"@ || service@ == "tunnel"@ || service@
            == "netdata"@) ==> (r matches Err(m) && m@ == unknown_service_msg(service@)),
{
    let running: bool;
    if str_eq(service, "backend") {
        running = status_for_backend(project);
    } else if str_eq(service, "frontend") {
        running = status_for_frontend(project);
    } else if str_eq(service, "tunnel") {
        running = status_for_tunnel(project);
    } else if str_eq(service, "netdata") {
        running = status_for_netdata();
    } else {
        let mut m: Vec<char> = Vec::new();
        append_str(&mut m, "Unknown service: ");
        append_str(&mut m, service);
        return Err(string_from_chars(&m));
    }
    Ok(status_label(running))
}

/// The process image name probed for a service when nothing else is known.
pub fn process_name_for(service: &str) -> (r: Option<&'static str>)
    ensures
        service@ == "tunnel"@ ==> (r matches Some(n) && n@ == "ssh"@),
        (service@ == "backend"@ || service@ == "frontend"@) ==> (r matches Some(n) && n@
            == "node"@),
        service@ == "netdata"@ ==> (r matches Some(n) && n@ == "netdata"@),
        !(service@ == "tunnel"@ || service@ == "backend"@ || service@ == "frontend"@ || service@
            == "netdata"@) ==> r is None,
{
    proof {
        reveal_strlit("tunnel");
        reveal_strlit("backend");
        reveal_strlit("frontend");
        reveal_strlit("netdata");
        assert("backend"@.len() == 7);
        assert("netdata"@.len() == 7);
        assert("tunnel"@.len() == 6);
        assert("frontend"@.len() == 8);
        assert("backend"@[0] == 'b');
        assert("netdata"@[0] == 'n');
    }
    if str_eq(service, "tunnel") {
        Some("ssh")
    } else if str_eq(service, "backend") || str_eq(service, "frontend") {
        Some("node")
    } else if str_eq(service, "netdata") {
        Some("netdata")
    } else {
        None
    }
}

/// The pid a single-pid listing reports: the whole output, trimmed, read
/// as a number.
pub open spec fn spec_pid_of_output(output: Seq<char>) -> Option<u32> {
    let t = spec_trim(output);
    if all_digits(t) && digits_value(t) <= u32::MAX {
        Some(digits_value(t) as u32)
    } else {
        None
    }
}

/// Reads a process listing that should carry exactly one pid.
pub fn parse_pid_output(output: &str) -> (r: Option<u32>)
    ensures
        r == spec_pid_of_output(output@),
{
    let v = to_chars(output);
    let t = trim_chars(&v);
    parse_u32(&t)
}

/// The first pid in a multi-line listing: the first line of the trimmed
/// output, read as a number.
pub open spec fn spec_first_pid(output: Seq<char>) -> Option<u32> {
    let t = spec_trim(output);
    let l = spec_lines(t).first();
    if all_digits(l) && digits_value(l) <= u32::MAX {
        Some(digits_value(l) as u32)
    } else {
        None
    }
}

/// Reads the first pid from a multi-line process listing.
pub fn first_pid_from_output(output: &str) -> (r: Option<u32>)
    ensures
        r == spec_first_pid(output@),
{
    let v = to_chars(output);
    let t = trim_chars(&v);
    let lines = split_lines(&t);
    parse_u32(&lines[0])
}

/// The pid one socket-listing line yields for a port: a line naming
/// `:<port>` carries `pid=<digits>` terminated by a comma.
pub open spec fn spec_ss_line_pid(line: Seq<char>, port: u16) -> Option<u32> {
    let port_pat = seq![':'] + spec_digits(port as nat);
    if contains_seq(line, port_pat) {
        match spec_find(line, seq!['p', 'i', 'd', '=']) {
            Some(i) => {
                let seg = spec_upto_char(line.skip(i + 4), ',');
                if all_digits(seg) && digits_value(seg) <= u32::MAX {
                    Some(digits_value(seg) as u32)
                } else {
                    None
                }
            },
            None => None,
        }
    } else {
        None
    }
}

/// The pid of the first line that yields one.
pub open spec fn spec_ss_pid(lines: Seq<Seq<char>>, port: u16) -> Option<u32>
    decreases lines.len(),
{
    if lines.len() == 0 {
        None
    } else {
        match spec_ss_line_pid(lines.first(), port) {
            Some(p) => Some(p),
            None => spec_ss_pid(lines.drop_first(), port),
        }
    }
}

fn ss_line_pid(line: &Vec<char>, port: u16) -> (r: Option<u32>)
    ensures
        r == spec_ss_line_pid(line@, port),
{
    let mut port_pat: Vec<char> = Vec::new();
    port_pat.push(':');
    crate::text::push_u64_digits(port as u64, &mut port_pat);
    assert(port_pat@ =~= seq![':'] + spec_digits(port as nat));
    if !contains_chars(line, &port_pat) {
        return None;
    }
    let mut pid_pat: Vec<char> = Vec::new();
    pid_pat.push('p');
    pid_pat.push('i');
    pid_pat.push('d');
    pid_pat.push('=');
    assert(pid_pat@ =~= seq!['p', 'i', 'd', '=']);
    let ll = line.len();
    match crate::text::find_index(line, &pid_pat) {
        Some(i) => {
            let rest = subrange_chars(line, i + 4, ll);
            assert(rest@ =~= line@.skip(i + 4));
            let seg = upto_char(&rest, ',');
            parse_u32(&seg)
        },
        None => None,
    }
}

/// Extracts, from a socket listing, the pid of the first line that names
/// the port and carries a pid entry.
pub fn extract_pid_from_ss(output: &str, port: u16) -> (r: Option<u32>)
    ensures
        r == spec_ss_pid(spec_lines(output@), port),
{
    let v = to_chars(output);
    let lines = split_lines(&v);
    let ghost lv = lines@.map_values(|l: Vec<char>| l@);
    assert(lv.skip(0) =~= lv);
    let mut i: usize = 0;
    while i < lines.len()
        invariant
            i <= lines@.len(),
            lv == lines@.map_values(|l: Vec<char>| l@),
            lv.len() == lines@.len(),
            lv == spec_lines(output@),
            spec_ss_pid(lv, port) == spec_ss_pid(lv.skip(i as int), port),
        decreases lines@.len() - i,
    {
        assert(lv.skip(i as int).first() == lv[i as int]);
        assert(lv.skip(i as int).drop_first() =~= lv.skip(i + 1));
        match ss_line_pid(&lines[i], port) {
            Some(p) => {
                return Some(p);
            },
            None => {},
        }
        i += 1;
    }
    assert(lv.skip(lines@.len() as int) =~= Seq::<Seq<char>>::empty());
    None
}

} // verus!
