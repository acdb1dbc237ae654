//! The script/command resolver: which executable serves a given
//! (service, action) pair, and which candidate script file wins when a
//! project's scripts directory offers several.

use vstd::prelude::*;
use crate::text::{
    contains_seq, contains_chars, lower_seq, lower_chars, to_chars, str_eq, string_from_chars,
    append_str,
};

verus! {

/// The view of each string in a vector.
pub open spec fn views_of(v: Seq<String>) -> Seq<Seq<char>> {
    v.map_values(|s: String| s@)
}

/// The packaged script that serves `(service, action)`, if the pair is known.
pub open spec fn spec_resolve_script(service: Seq<char>, action: Seq<char>) -> Option<Seq<char>> {
    if service == "backend"@ && action == "start"@ {
        Some("backend-on.sh"@)
    } else if service == "backend"@ && action == "stop"@ {
        Some("backend-off.sh"@)
    } else if service == "frontend"@ && action == "start"@ {
        Some("frontend-on.sh"@)
    } else if service == "frontend"@ && action == "stop"@ {
        Some("frontend-off.sh"@)
    } else if service == "tunnel"@ && action == "start"@ {
        Some("tunnel-on.sh"@)
    } else if service == "tunnel"@ && action == "stop"@ {
        Some("tunnel-off.sh"@)
    } else if service == "netdata"@ && action == "start"@ {
        Some("netdata-on.sh"@)
    } else if service == "netdata"@ && action == "stop"@ {
        Some("netdata-off.sh"@)
    } else if service == "zombies"@ && action == "kill"@ {
        Some("kill-zombies.sh"@)
    } else {
        None
    }
}

/// The packaged script name for `(service, action)`.
pub fn resolve_script(service: &str, action: &str) -> (r: Option<&'static str>)
    ensures
        match r {
            Some(s) => spec_resolve_script(service@, action@) == Some(s@),
            None => spec_resolve_script(service@, action@) is None,
        },
{
    if str_eq(service, "backend") && str_eq(action, "start") {
        Some("backend-on.sh")
    } else if str_eq(service, "backend") && str_eq(action, "stop") {
        Some("backend-off.sh")
    } else if str_eq(service, "frontend") && str_eq(action, "start") {
        Some("frontend-on.sh")
    } else if str_eq(service, "frontend") && str_eq(action, "stop") {
        Some("frontend-off.sh")
    } else if str_eq(service, "tunnel") && str_eq(action, "start") {
        Some("tunnel-on.sh")
    } else if str_eq(service, "tunnel") && str_eq(action, "stop") {
        Some("tunnel-off.sh")
    } else if str_eq(service, "netdata") && str_eq(action, "start") {
        Some("netdata-on.sh")
    } else if str_eq(service, "netdata") && str_eq(action, "stop") {
        Some("netdata-off.sh")
    } else if str_eq(service, "zombies") && str_eq(action, "kill") {
        Some("kill-zombies.sh")
    } else {
        None
    }
}

/// Case-insensitive (ASCII) equality.
pub open spec fn eq_ignorecase(a: Seq<char>, b: Seq<char>) -> bool {
    lower_seq(a) == lower_seq(b)
}

/// The first file equal to `cand` up to ASCII case, if any.
pub open spec fn first_file_matching(files: Seq<Seq<char>>, cand: Seq<char>) -> Option<Seq<char>>
    decreases files.len(),
{
    if files.len() == 0 {
        None
    } else if eq_ignorecase(files.first(), cand) {
        Some(files.first())
    } else {
        first_file_matching(files.drop_first(), cand)
    }
}

/// The first candidate, in priority order, that some file matches exactly
/// (up to case); that first file is the result.
pub open spec fn exact_phase(files: Seq<Seq<char>>, cands: Seq<Seq<char>>) -> Option<Seq<char>>
    decreases cands.len(),
{
    if cands.len() == 0 {
        None
    } else {
        match first_file_matching(files, cands.first()) {
            Some(f) => Some(f),
            None => exact_phase(files, cands.drop_first()),
        }
    }
}

/// Whether the lower-cased `file` contains the lower-cased form of some
/// candidate as a substring.
pub open spec fn loose_match(file: Seq<char>, cands: Seq<Seq<char>>) -> bool {
    exists|i: int| 0 <= i < cands.len() && contains_seq(lower_seq(file), lower_seq(cands[i]))
}

/// The first file whose name loosely matches some candidate.
pub open spec fn loose_phase(files: Seq<Seq<char>>, cands: Seq<Seq<char>>) -> Option<Seq<char>>
    decreases files.len(),
{
    if files.len() == 0 {
        None
    } else if loose_match(files.first(), cands) {
        Some(files.first())
    } else {
        loose_phase(files.drop_first(), cands)
    }
}

/// The winning script among `files` for the priority list `cands`:
/// an exact (case-insensitive) candidate match first, a substring match
/// second, nothing otherwise.
pub open spec fn spec_find_script(files: Seq<Seq<char>>, cands: Seq<Seq<char>>) -> Option<
    Seq<char>,
> {
    if files.len() == 0 {
        None
    } else {
        match exact_phase(files, cands) {
            Some(f) => Some(f),
            None => loose_phase(files, cands),
        }
    }
}

/// Whether `file` equals `cand` up to ASCII case.
fn eq_ignorecase_exec(file: &String, cand: &String) -> (r: bool)
    ensures
        r == eq_ignorecase(file@, cand@),
{
    let fv = to_chars(file.as_str());
    let cv = to_chars(cand.as_str());
    let fl = lower_chars(&fv);
    let cl = lower_chars(&cv);
    let mut i: usize = 0;
    if fl.len() != cl.len() {
        assert(lower_seq(file@).len() == file@.len());
        assert(lower_seq(cand@).len() == cand@.len());
        return false;
    }
    while i < fl.len()
        invariant
            i <= fl@.len(),
            fl@ == lower_seq(file@),
            cl@ == lower_seq(cand@),
            fl@.len() == cl@.len(),
            forall|j: int| 0 <= j < i ==> fl@[j] == cl@[j],
        decreases fl@.len() - i,
    {
        if fl[i] != cl[i] {
            return false;
        }
        i += 1;
    }
    assert(fl@ =~= cl@);
    true
}

/// The first file in `files` equal to `cand` up to case.
fn find_exact_file(files: &Vec<String>, cand: &String) -> (r: Option<String>)
    ensures
        match r {
            Some(f) => first_file_matching(views_of(files@), cand@) == Some(f@),
            None => first_file_matching(views_of(files@), cand@) is None,
        },
{
    let ghost fv = views_of(files@);
    assert(fv.skip(0) =~= fv);
    let mut i: usize = 0;
    while i < files.len()
        invariant
            i <= files@.len(),
            fv == views_of(files@),
            fv.len() == files@.len(),
            first_file_matching(fv, cand@) == first_file_matching(fv.skip(i as int), cand@),
        decreases files@.len() - i,
    {
        assert(fv.skip(i as int).first() == fv[i as int]);
        assert(fv.skip(i as int).drop_first() =~= fv.skip(i + 1));
        if eq_ignorecase_exec(&files[i], cand) {
            return Some(files[i].clone());
        }
        i += 1;
    }
    assert(fv.skip(files@.len() as int) =~= Seq::<Seq<char>>::empty());
    None
}

/// Whether the lower-cased `file` contains some lower-cased candidate.
fn loose_match_exec(file: &String, cands: &Vec<String>) -> (r: bool)
    ensures
        r == loose_match(file@, views_of(cands@)),
{
    let ghost cv = views_of(cands@);
    let fv = to_chars(file.as_str());
    let fl = lower_chars(&fv);
    let mut i: usize = 0;
    while i < cands.len()
        invariant
            i <= cands@.len(),
            cv == views_of(cands@),
            cv.len() == cands@.len(),
            fl@ == lower_seq(file@),
            forall|j: int| 0 <= j < i ==> !contains_seq(lower_seq(file@), lower_seq(cv[j])),
        decreases cands@.len() - i,
    {
        let ccv = to_chars(cands[i].as_str());
        let ccl = lower_chars(&ccv);
        if contains_chars(&fl, &ccl) {
            assert(contains_seq(lower_seq(file@), lower_seq(cv[i as int])));
            return true;
        }
        i += 1;
    }
    assert(!loose_match(file@, cv));
    false
}

/// The winning script among `files` for the candidate priority list `cands`.
pub fn find_script(files: &Vec<String>, cands: &Vec<String>) -> (r: Option<String>)
    ensures
        match r {
            Some(f) => spec_find_script(views_of(files@), views_of(cands@)) == Some(f@),
            None => spec_find_script(views_of(files@), views_of(cands@)) is None,
        },
{
    let ghost fv = views_of(files@);
    let ghost cv = views_of(cands@);
    if files.len() == 0 {
        return None;
    }
    assert(cv.skip(0) =~= cv);
    let mut i: usize = 0;
    while i < cands.len()
        invariant
            i <= cands@.len(),
            fv == views_of(files@),
            cv == views_of(cands@),
            cv.len() == cands@.len(),
            exact_phase(fv, cv) == exact_phase(fv, cv.skip(i as int)),
        decreases cands@.len() - i,
    {
        assert(cv.skip(i as int).first() == cv[i as int]);
        assert(cv.skip(i as int).drop_first() =~= cv.skip(i + 1));
        match find_exact_file(files, &cands[i]) {
            Some(f) => {
                return Some(f);
            },
            None => {},
        }
        i += 1;
    }
    assert(cv.skip(cands@.len() as int) =~= Seq::<Seq<char>>::empty());
    assert(exact_phase(fv, cv) is None);
    assert(fv.skip(0) =~= fv);
    let mut k: usize = 0;
    while k < files.len()
        invariant
            k <= files@.len(),
            fv == views_of(files@),
            cv == views_of(cands@),
            fv.len() == files@.len(),
            fv.len() > 0,
            exact_phase(fv, cv) is None,
            loose_phase(fv, cv) == loose_phase(fv.skip(k as int), cv),
        decreases files@.len() - k,
    {
        assert(fv.skip(k as int).first() == fv[k as int]);
        assert(fv.skip(k as int).drop_first() =~= fv.skip(k + 1));
        if loose_match_exec(&files[k], cands) {
            return Some(files[k].clone());
        }
        k += 1;
    }
    assert(fv.skip(files@.len() as int) =~= Seq::<Seq<char>>::empty());
    None
}

/// A detected start script with its optional stop counterpart.
#[derive(Debug, Clone)]
pub struct ScanScript {
    pub start: String,
    pub stop: Option<String>,
}

/// The monitoring daemon's fixed scripts and port.
#[derive(Debug, Clone)]
pub struct NetdataScript {
    pub start: String,
    pub stop: Option<String>,
    pub port: u16,
}

/// The per-service script pairs found in a project's scripts directory.
#[derive(Debug, Clone)]
pub struct ProjectScanScripts {
    pub tunnel: Option<ScanScript>,
    pub backend: Option<ScanScript>,
    pub frontend: Option<ScanScript>,
    pub netdata: NetdataScript,
}

/// Candidate start script names for the tunnel, in priority order.
pub open spec fn tunnel_start_list() -> Seq<Seq<char>> {
    seq!["tunnel-on.sh"@, "tunnel.sh"@, "ssh-tunnel.sh"@, "dev-tunnel.sh"@]
}

/// Candidate stop script names for the tunnel, in priority order.
pub open spec fn tunnel_stop_list() -> Seq<Seq<char>> {
    seq!["tunnel-off.sh"@, "tunnel-stop.sh"@, "ssh-tunnel-off.sh"@]
}

/// Candidate start script names for the backend, in priority order.
pub open spec fn backend_start_list() -> Seq<Seq<char>> {
    seq!["backend-on.sh"@, "start-backend.sh"@, "start-payload.sh"@, "start-dev-backend.sh"@]
}

/// Candidate stop script names for the backend, in priority order.
pub open spec fn backend_stop_list() -> Seq<Seq<char>> {
    seq!["backend-off.sh"@, "stop-backend.sh"@]
}

/// Candidate start script names for the frontend, in priority order.
pub open spec fn frontend_start_list() -> Seq<Seq<char>> {
    seq!["frontend-on.sh"@, "start-frontend.sh"@, "start-web.sh"@, "start-dev-frontend.sh"@]
}

/// Candidate stop script names for the frontend, in priority order.
pub open spec fn frontend_stop_list() -> Seq<Seq<char>> {
    seq!["frontend-off.sh"@, "stop-frontend.sh"@]
}

/// The tunnel's candidate start scripts.
pub fn tunnel_start_candidates() -> (r: Vec<String>)
    ensures
        views_of(r@) == tunnel_start_list(),
{
    let mut r: Vec<String> = Vec::new();
    r.push(String::from_str("tunnel-on.sh"));
    r.push(String::from_str("tunnel.sh"));
    r.push(String::from_str("ssh-tunnel.sh"));
    r.push(String::from_str("dev-tunnel.sh"));
    assert(views_of(r@) =~= tunnel_start_list());
    r
}

/// The tunnel's candidate stop scripts.
pub fn tunnel_stop_candidates() -> (r: Vec<String>)
    ensures
        views_of(r@) == tunnel_stop_list(),
{
    let mut r: Vec<String> = Vec::new();
    r.push(String::from_str("tunnel-off.sh"));
    r.push(String::from_str("tunnel-stop.sh"));
    r.push(String::from_str("ssh-tunnel-off.sh"));
    assert(views_of(r@) =~= tunnel_stop_list());
    r
}

/// The backend's candidate start scripts.
pub fn backend_start_candidates() -> (r: Vec<String>)
    ensures
        views_of(r@) == backend_start_list(),
{
    let mut r: Vec<String> = Vec::new();
    r.push(String::from_str("backend-on.sh"));
    r.push(String::from_str("start-backend.sh"));
    r.push(String::from_str("start-payload.sh"));
    r.push(String::from_str("start-dev-backend.sh"));
    assert(views_of(r@) =~= backend_start_list());
    r
}

/// The backend's candidate stop scripts.
pub fn backend_stop_candidates() -> (r: Vec<String>)
    ensures
        views_of(r@) == backend_stop_list(),
{
    let mut r: Vec<String> = Vec::new();
    r.push(String::from_str("backend-off.sh"));
    r.push(String::from_str("stop-backend.sh"));
    assert(views_of(r@) =~= backend_stop_list());
    r
}

/// The frontend's candidate start scripts.
pub fn frontend_start_candidates() -> (r: Vec<String>)
    ensures
        views_of(r@) == frontend_start_list(),
{
    let mut r: Vec<String> = Vec::new();
    r.push(String::from_str("frontend-on.sh"));
    r.push(String::from_str("start-frontend.sh"));
    r.push(String::from_str("start-web.sh"));
    r.push(String::from_str("start-dev-frontend.sh"));
    assert(views_of(r@) =~= frontend_start_list());
    r
}

/// The frontend's candidate stop scripts.
pub fn frontend_stop_candidates() -> (r: Vec<String>)
    ensures
        views_of(r@) == frontend_stop_list(),
{
    let mut r: Vec<String> = Vec::new();
    r.push(String::from_str("frontend-off.sh"));
    r.push(String::from_str("stop-frontend.sh"));
    assert(views_of(r@) =~= frontend_stop_list());
    r
}

/// The pair detected for one service: no pair without a start script; a stop
/// script alone does not make a pair.
pub open spec fn spec_pair_start(files: Seq<Seq<char>>, starts: Seq<Seq<char>>) -> Option<
    Seq<char>,
> {
    spec_find_script(files, starts)
}

/// The start/stop script pair for one service, if a start script exists.
pub fn detect_script_pair(files: &Vec<String>, start_cands: &Vec<String>, stop_cands: &Vec<String>)
    -> (r: Option<ScanScript>)
    ensures
        match r {
            Some(p) => spec_find_script(views_of(files@), views_of(start_cands@)) == Some(p.start@)
                && (match p.stop {
                Some(sp) => spec_find_script(views_of(files@), views_of(stop_cands@)) == Some(sp@),
                None => spec_find_script(views_of(files@), views_of(stop_cands@)) is None,
            }),
            None => spec_find_script(views_of(files@), views_of(start_cands@)) is None,
        },
{
    match find_script(files, start_cands) {
        Some(start) => {
            let stop = find_script(files, stop_cands);
            Some(ScanScript { start, stop })
        },
        None => None,
    }
}

/// The message reported when no script serves `(service, action)`.
pub open spec fn no_script_msg(service: Seq<char>, action: Seq<char>) -> Seq<char> {
    "No "@ + action + " script found for "@ + service
}

/// Resolves the script for `(service, action)` from a scripts directory
/// listing, by candidate priority; failure names the missing pair.
pub fn resolve_service_script(files: &Vec<String>, service: &str, action: &str) -> (r: Result<
    String,
    String,
>)
    ensures
        ({
            let starting = action@ == "start"@;
            let cands = if service@ == "tunnel"@ {
                if starting {
                    tunnel_start_list()
                } else {
                    tunnel_stop_list()
                }
            } else if service@ == "backend"@ {
                if starting {
                    backend_start_list()
                } else {
                    backend_stop_list()
                }
            } else {
                if starting {
                    frontend_start_list()
                } else {
                    frontend_stop_list()
                }
            };
            (service@ == "tunnel"@ || service@ == "backend"@ || service@ == "frontend"@) && (action@
                == "start"@ || action@ == "stop"@) ==> match r {
                Ok(f) => spec_find_script(views_of(files@), cands) == Some(f@),
                Err(m) => spec_find_script(views_of(files@), cands) is None && m@ == no_script_msg(
                    service@,
                    action@,
                ),
            }
        }),
        !((service@ == "tunnel"@ || service@ == "backend"@ || service@ == "frontend"@) && (action@
            == "start"@ || action@ == "stop"@)) ==> (r matches Err(m) && m@ == no_script_msg(
            service@,
            action@,
        )),
{
    let starting = str_eq(action, "start");
    let stopping = str_eq(action, "stop");
    let cands: Option<Vec<String>> = if !(starting || stopping) {
        None
    } else if str_eq(service, "tunnel") {
        Some(
            if starting {
                tunnel_start_candidates()
            } else {
                tunnel_stop_candidates()
            },
        )
    } else if str_eq(service, "backend") {
        Some(
            if starting {
                backend_start_candidates()
            } else {
                backend_stop_candidates()
            },
        )
    } else if str_eq(service, "frontend") {
        Some(
            if starting {
                frontend_start_candidates()
            } else {
                frontend_stop_candidates()
            },
        )
    } else {
        None
    };
    let found = match cands {
        Some(c) => find_script(files, &c),
        None => None,
    };
    match found {
        Some(f) => Ok(f),
        None => {
            let mut m: Vec<char> = Vec::new();
            append_str(&mut m, "No ");
            append_str(&mut m, action);
            append_str(&mut m, " script found for ");
            append_str(&mut m, service);
            Err(string_from_chars(&m))
        },
    }
}

/// What script discovery found for a project: the scripts directory, the
/// per-service pairs, and a warning for each service without a pair.
pub struct ScriptsDetection {
    pub path: Option<String>,
    pub scripts: ProjectScanScripts,
    pub warnings: Vec<String>,
}

/// The warnings owed when a service's script pair is missing.
pub open spec fn spec_scripts_warnings(
    has_tunnel: bool,
    has_backend: bool,
    has_frontend: bool,
) -> Seq<Seq<char>> {
    (if !has_tunnel {
        seq!["Scripts tunnel (tunnel-on/off.sh) non détectés"@]
    } else {
        Seq::<Seq<char>>::empty()
    }) + (if !has_backend {
        seq!["Scripts backend (backend-on/off.sh) non détectés"@]
    } else {
        Seq::<Seq<char>>::empty()
    }) + (if !has_frontend {
        seq!["Scripts frontend (frontend-on/off.sh) non détectés"@]
    } else {
        Seq::<Seq<char>>::empty()
    })
}

/// What `spec_find_script` yields for a service's start candidates, given
/// the scripts directory listing, or nothing without a directory.
pub open spec fn spec_service_pair(
    path_found: bool,
    files: Seq<Seq<char>>,
    starts: Seq<Seq<char>>,
) -> Option<Seq<char>> {
    if path_found {
        spec_find_script(files, starts)
    } else {
        None
    }
}

/// Discovers the per-service script pairs in a scripts directory listing;
/// `scripts_path` is the directory (if one was located), `files` its shell
/// script file names. The monitoring daemon keeps its packaged scripts.
pub fn detect_scripts_info(scripts_path: Option<String>, files: &Vec<String>) -> (r:
    ScriptsDetection)
    ensures
        r.path == scripts_path,
        ({
            let fv = views_of(files@);
            let found = scripts_path is Some;
            &&& (match r.scripts.tunnel {
                Some(p) => spec_service_pair(found, fv, tunnel_start_list()) == Some(p.start@)
                    && (match p.stop {
                    Some(sp) => spec_find_script(fv, tunnel_stop_list()) == Some(sp@),
                    None => spec_find_script(fv, tunnel_stop_list()) is None,
                }),
                None => spec_service_pair(found, fv, tunnel_start_list()) is None,
            })
            &&& (match r.scripts.backend {
                Some(p) => spec_service_pair(found, fv, backend_start_list()) == Some(p.start@)
                    && (match p.stop {
                    Some(sp) => spec_find_script(fv, backend_stop_list()) == Some(sp@),
                    None => spec_find_script(fv, backend_stop_list()) is None,
                }),
                None => spec_service_pair(found, fv, backend_start_list()) is None,
            })
            &&& (match r.scripts.frontend {
                Some(p) => spec_service_pair(found, fv, frontend_start_list()) == Some(p.start@)
                    && (match p.stop {
                    Some(sp) => spec_find_script(fv, frontend_stop_list()) == Some(sp@),
                    None => spec_find_script(fv, frontend_stop_list()) is None,
                }),
                None => spec_service_pair(found, fv, frontend_start_list()) is None,
            })
        }),
        r.scripts.netdata.start@ == "netdata-on.sh"@,
        r.scripts.netdata.stop matches Some(sp) && sp@ == "netdata-off.sh"@,
        r.scripts.netdata.port == 19999,
        views_of(r.warnings@) == spec_scripts_warnings(
            r.scripts.tunnel is Some,
            r.scripts.backend is Some,
            r.scripts.frontend is Some,
        ),
{
    let found = scripts_path.is_some();
    let tunnel = if found {
        let sc = tunnel_start_candidates();
        let tc = tunnel_stop_candidates();
        detect_script_pair(files, &sc, &tc)
    } else {
        None
    };
    let backend = if found {
        let sc = backend_start_candidates();
        let tc = backend_stop_candidates();
        detect_script_pair(files, &sc, &tc)
    } else {
        None
    };
    let frontend = if found {
        let sc = frontend_start_candidates();
        let tc = frontend_stop_candidates();
        detect_script_pair(files, &sc, &tc)
    } else {
        None
    };
    let mut warnings: Vec<String> = Vec::new();
    if tunnel.is_none() {
        warnings.push(String::from_str("Scripts tunnel (tunnel-on/off.sh) non détectés"));
    }
    if backend.is_none() {
        warnings.push(String::from_str("Scripts backend (backend-on/off.sh) non détectés"));
    }
    if frontend.is_none() {
        warnings.push(String::from_str("Scripts frontend (frontend-on/off.sh) non détectés"));
    }
    proof {
        assert(views_of(warnings@) =~= spec_scripts_warnings(
            tunnel is Some,
            backend is Some,
            frontend is Some,
        ));
    }
    let netdata = NetdataScript {
        start: String::from_str("netdata-on.sh"),
        stop: Some(String::from_str("netdata-off.sh")),
        port: 19999,
    };
    ScriptsDetection {
        path: scripts_path,
        scripts: ProjectScanScripts { tunnel, backend, frontend, netdata },
        warnings,
    }
}

/// The first of several candidate locations that exists wins; if none
/// exists, resolution fails, naming the missing script.
pub open spec fn missing_script_msg(script_name: Seq<char>) -> Seq<char> {
    "Script not found: "@ + script_name
}

/// Picks the first existing path among `candidates`; `exists` reports, for
/// each candidate in turn, whether a readable file is present there.
pub fn pick_existing_path(candidates: &Vec<String>, exists: &Vec<bool>, script_name: &str) -> (r:
    Result<String, String>)
    requires
        candidates@.len() == exists@.len(),
    ensures
        match r {
            Ok(p) => exists|i: int|
                0 <= i < candidates@.len() && exists@[i] && p@ == views_of(candidates@)[i]
                    && forall|j: int| 0 <= j < i ==> !exists@[j],
            Err(m) => (forall|j: int| 0 <= j < exists@.len() ==> !exists@[j]) && m@
                == missing_script_msg(script_name@),
        },
{
    let mut i: usize = 0;
    while i < candidates.len()
        invariant
            i <= candidates@.len(),
            candidates@.len() == exists@.len(),
            forall|j: int| 0 <= j < i ==> !exists@[j],
        decreases candidates@.len() - i,
    {
        if exists[i] {
            return Ok(candidates[i].clone());
        }
        i += 1;
    }
    let mut m: Vec<char> = Vec::new();
    append_str(&mut m, "Script not found: ");
    append_str(&mut m, script_name);
    Err(string_from_chars(&m))
}

} // verus!
