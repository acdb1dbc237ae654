//! Project descriptors and the project detection rules: directory
//! classification, the ignore-list, and assembling a scan result from the
//! signals a directory walk collects.
//!
//! Walking the filesystem itself is left to the caller; every function here
//! works on names, flags and file contents handed in as plain values.

use vstd::prelude::*;
use std::collections::BTreeMap;
use crate::names::{format_project_name, spec_format_name};
use crate::resolver::{views_of, ScriptsDetection, ProjectScanScripts};
use crate::text::{contains_seq, contains_str, ends_with_seq, starts_with_seq, str_eq, to_chars,
    starts_with_chars, ends_with_chars};

verus! {

/// The ports a project's services listen on.
#[derive(Debug, Clone)]
pub struct Ports {
    pub backend: u16,
    pub frontend: u16,
}

/// Extra environment entries for a project's services.
#[derive(Debug, Clone, Default)]
pub struct ProjectEnvironment {
    pub backend_env: BTreeMap<String, String>,
    pub frontend_env: BTreeMap<String, String>,
}

/// A project's SSH tunnel parameters.
#[derive(Debug, Clone)]
pub struct Tunnel {
    pub enabled: bool,
    pub host: String,
    pub user: String,
    pub port: u16,
    pub private_key: String,
    pub local_mongo: u16,
    pub remote_mongo: u16,
}

/// Per-service override commands.
#[derive(Debug, Clone)]
pub struct ProjectCommands {
    pub backend: Option<String>,
    pub frontend: Option<String>,
    pub tunnel: Option<String>,
    pub netdata: Option<String>,
}

/// A service's configured start/stop commands and port.
#[derive(Debug, Clone)]
pub struct ProjectServiceConfig {
    pub start: Option<String>,
    pub stop: Option<String>,
    pub port: Option<u16>,
}

/// A registered project: identifier, paths, ports and optional per-service
/// configuration. Owned by the on-disk registry; borrowed here per call.
#[derive(Debug, Clone)]
pub struct ProjectV3 {
    pub id: String,
    pub name: String,
    pub root_path: String,
    pub backend_path: String,
    pub frontend_path: String,
    pub ports: Ports,
    pub environment: Option<ProjectEnvironment>,
    pub tunnel: Option<Tunnel>,
    pub backend: Option<ProjectServiceConfig>,
    pub frontend: Option<ProjectServiceConfig>,
    pub commands: Option<ProjectCommands>,
    pub created_at: String,
}

/// The set of registered projects.
#[derive(Default)]
pub struct ProjectConfigV3 {
    pub projects: Vec<ProjectV3>,
}

/// What a project scan reports.
#[derive(Debug, Clone)]
pub struct ProjectScanResult {
    pub name: String,
    pub backend_path: Option<String>,
    pub backend_port: Option<u16>,
    pub backend_start: Option<String>,
    pub backend_stop: Option<String>,
    pub frontend_path: Option<String>,
    pub frontend_port: Option<u16>,
    pub frontend_start: Option<String>,
    pub frontend_stop: Option<String>,
    pub scripts_path: Option<String>,
    pub scripts: ProjectScanScripts,
    pub warnings: Vec<String>,
}

/// The directory names a scan skips: version control, archives, editor
/// metadata, dependency caches, build output and backups.
pub open spec fn ignore_list() -> Seq<Seq<char>> {
    seq![
        "_archive"@,
        "archive"@,
        "docs"@,
        "documentation"@,
        "frontend-backup"@,
        "backend-backup"@,
        ".git"@,
        ".vscode"@,
        ".idea"@,
        "__tests__"@,
        "dist"@,
        "node_modules"@,
    ]
}

/// Whether a directory name is skipped: it equals an ignored name or
/// begins with one.
pub open spec fn spec_should_ignore(name: Seq<char>) -> bool {
    exists|i: int|
        0 <= i < ignore_list().len() && (name == ignore_list()[i] || starts_with_seq(
            name,
            ignore_list()[i],
        ))
}

/// Whether a directory is skipped by the scan.
pub fn should_ignore_dir(dir_name: &str) -> (r: bool)
    ensures
        r == spec_should_ignore(dir_name@),
{
    let pats: Vec<&str> = vec![
        "_archive",
        "archive",
        "docs",
        "documentation",
        "frontend-backup",
        "backend-backup",
        ".git",
        ".vscode",
        ".idea",
        "__tests__",
        "dist",
        "node_modules",
    ];
    let ghost pv = pats@.map_values(|s: &str| s@);
    proof {
        assert(pv =~= ignore_list());
    }
    let nv = to_chars(dir_name);
    let mut i: usize = 0;
    while i < pats.len()
        invariant
            i <= pats@.len(),
            pv == pats@.map_values(|s: &str| s@),
            pv == ignore_list(),
            pv.len() == pats@.len(),
            nv@ == dir_name@,
            forall|j: int|
                0 <= j < i ==> !(dir_name@ == pv[j] || starts_with_seq(dir_name@, pv[j])),
        decreases pats@.len() - i,
    {
        let p = to_chars(pats[i]);
        if str_eq(dir_name, pats[i]) || starts_with_chars(&nv, &p) {
            return true;
        }
        i += 1;
    }
    false
}

/// A directory is a backend root when it carries a package manifest
/// together with the backend framework's configuration file, or a source
/// tree plus a manifest that references the framework.
pub open spec fn spec_is_payload_backend(
    has_package_json: bool,
    has_payload_config: bool,
    has_src_dir: bool,
    package_json: Option<Seq<char>>,
) -> bool {
    has_package_json && (has_payload_config || has_src_dir) && (has_payload_config || (match
        package_json {
        Some(c) => contains_seq(c, "payload"@) || contains_seq(c, "@payloadcms"@),
        None => false,
    }))
}

/// Classifies a directory as a backend root from its probed signals.
pub fn is_payload_backend(
    has_package_json: bool,
    has_payload_config: bool,
    has_src_dir: bool,
    package_json: Option<&str>,
) -> (r: bool)
    ensures
        r == spec_is_payload_backend(
            has_package_json,
            has_payload_config,
            has_src_dir,
            match package_json {
                Some(c) => Some(c@),
                None => None,
            },
        ),
{
    if !has_package_json || !(has_payload_config || has_src_dir) {
        return false;
    }
    if has_payload_config {
        return true;
    }
    match package_json {
        Some(c) => contains_str(c, "payload") || contains_str(c, "@payloadcms"),
        None => false,
    }
}

/// A directory is a frontend root when its manifest names the frontend
/// framework and its name is not backup-like.
pub open spec fn spec_is_next_frontend(
    dir_name: Seq<char>,
    has_package_json: bool,
    package_json: Option<Seq<char>>,
) -> bool {
    !spec_should_ignore(dir_name) && has_package_json && (match package_json {
        Some(c) => contains_seq(c, "\"next\""@) || contains_seq(c, "nextjs"@),
        None => false,
    })
}

/// Classifies a directory as a frontend root from its probed signals.
pub fn is_next_frontend(dir_name: &str, has_package_json: bool, package_json: Option<&str>) -> (r:
    bool)
    ensures
        r == spec_is_next_frontend(
            dir_name@,
            has_package_json,
            match package_json {
                Some(c) => Some(c@),
                None => None,
            },
        ),
{
    if should_ignore_dir(dir_name) || !has_package_json {
        return false;
    }
    match package_json {
        Some(c) => contains_str(c, "\"next\"") || contains_str(c, "nextjs"),
        None => false,
    }
}

/// The names that may hold a project's scripts, in priority order.
pub open spec fn scripts_dir_list() -> Seq<Seq<char>> {
    seq!["scripts"@, "tools"@, "dev"@]
}

/// The candidate scripts directory names, in priority order.
pub fn scripts_dir_candidates() -> (r: Vec<String>)
    ensures
        views_of(r@) == scripts_dir_list(),
{
    let mut r: Vec<String> = Vec::new();
    r.push(String::from_str("scripts"));
    r.push(String::from_str("tools"));
    r.push(String::from_str("dev"));
    assert(views_of(r@) =~= scripts_dir_list());
    r
}

/// Whether a directory name equals or contains a scripts-directory name.
pub open spec fn spec_is_scripts_dir_name(name: Seq<char>) -> bool {
    exists|i: int|
        0 <= i < scripts_dir_list().len() && (name == scripts_dir_list()[i] || contains_seq(
            name,
            scripts_dir_list()[i],
        ))
}

/// Whether a directory found while walking may be a scripts directory.
pub fn is_scripts_dir_name(name: &str) -> (r: bool)
    ensures
        r == spec_is_scripts_dir_name(name@),
{
    let pats: Vec<&str> = vec!["scripts", "tools", "dev"];
    let ghost pv = pats@.map_values(|s: &str| s@);
    proof {
        assert(pv =~= scripts_dir_list());
    }
    let nv = to_chars(name);
    let mut i: usize = 0;
    while i < pats.len()
        invariant
            i <= pats@.len(),
            pv == pats@.map_values(|s: &str| s@),
            pv == scripts_dir_list(),
            pv.len() == pats@.len(),
            nv@ == name@,
            forall|j: int| 0 <= j < i ==> !(name@ == pv[j] || contains_seq(name@, pv[j])),
        decreases pats@.len() - i,
    {
        let p = to_chars(pats[i]);
        if str_eq(name, pats[i]) || crate::text::contains_chars(&nv, &p) {
            return true;
        }
        i += 1;
    }
    false
}

/// Whether the listing holds at least one shell script.
pub fn has_shell_scripts(files: &Vec<String>) -> (r: bool)
    ensures
        r == exists|i: int| 0 <= i < files@.len() && ends_with_seq(files@[i]@, ".sh"@),
{
    let suffix = to_chars(".sh");
    let mut i: usize = 0;
    while i < files.len()
        invariant
            i <= files@.len(),
            suffix@ == ".sh"@,
            forall|j: int| 0 <= j < i ==> !ends_with_seq(files@[j]@, ".sh"@),
        decreases files@.len() - i,
    {
        let fv = to_chars(files[i].as_str());
        if ends_with_chars(&fv, &suffix) {
            return true;
        }
        i += 1;
    }
    false
}

/// The project a registered identifier names, if any.
pub fn get_project_by_id<'a>(cfg: &'a ProjectConfigV3, id: &str) -> (r: Option<&'a ProjectV3>)
    ensures
        match r {
            Some(p) => p.id@ == id@ && exists|i: int|
                #![auto]
                0 <= i < cfg.projects@.len() && *p == cfg.projects@[i],
            None => forall|i: int| 0 <= i < cfg.projects@.len() ==> cfg.projects@[i].id@ != id@,
        },
{
    let mut i: usize = 0;
    while i < cfg.projects.len()
        invariant
            i <= cfg.projects@.len(),
            forall|j: int| 0 <= j < i ==> cfg.projects@[j].id@ != id@,
        decreases cfg.projects@.len() - i,
    {
        if str_eq(cfg.projects[i].id.as_str(), id) {
            return Some(&cfg.projects[i]);
        }
        i += 1;
    }
    None
}

/// The warnings a scan reports before script discovery: one for each
/// component that was not found.
pub open spec fn spec_scan_warnings(
    has_backend: bool,
    has_frontend: bool,
    has_scripts: bool,
) -> Seq<Seq<char>> {
    (if !has_backend {
        seq!["Backend Payload non détecté"@]
    } else {
        Seq::<Seq<char>>::empty()
    }) + (if !has_frontend {
        seq!["Frontend Next.js non détecté"@]
    } else {
        Seq::<Seq<char>>::empty()
    }) + (if !has_scripts {
        seq!["Dossier scripts non détecté (scripts/)"@]
    } else {
        Seq::<Seq<char>>::empty()
    })
}

/// Assembles a scan result from the walk's findings: the formatted display
/// name, the detected paths and ports, the script pairs, and a warning for
/// every missing signal — detection never fails outright.
pub fn assemble_scan_result(
    root_name: &str,
    backend_path: Option<String>,
    backend_port: Option<u16>,
    frontend_path: Option<String>,
    frontend_port: Option<u16>,
    scripts: ScriptsDetection,
) -> (r: ProjectScanResult)
    ensures
        r.name@ == spec_format_name(root_name@),
        r.backend_path == backend_path,
        r.backend_port == backend_port,
        r.frontend_path == frontend_path,
        r.frontend_port == frontend_port,
        r.scripts_path == scripts.path,
        r.scripts == scripts.scripts,
        (match r.backend_start {
            Some(s) => r.scripts.backend matches Some(p) && p.start@ == s@,
            None => r.scripts.backend is None,
        }),
        (match r.backend_stop {
            Some(s) => r.scripts.backend matches Some(p) && p.stop matches Some(q) && q@ == s@,
            None => r.scripts.backend is None || (r.scripts.backend matches Some(p)
                && p.stop is None),
        }),
        (match r.frontend_start {
            Some(s) => r.scripts.frontend matches Some(p) && p.start@ == s@,
            None => r.scripts.frontend is None,
        }),
        (match r.frontend_stop {
            Some(s) => r.scripts.frontend matches Some(p) && p.stop matches Some(q) && q@ == s@,
            None => r.scripts.frontend is None || (r.scripts.frontend matches Some(p)
                && p.stop is None),
        }),
        views_of(r.warnings@) == spec_scan_warnings(
            backend_path is Some,
            frontend_path is Some,
            scripts.path is Some,
        ) + views_of(scripts.warnings@),
{
    let name = format_project_name(root_name);
    let mut warnings: Vec<String> = Vec::new();
    if backend_path.is_none() {
        warnings.push(String::from_str("Backend Payload non détecté"));
    }
    if frontend_path.is_none() {
        warnings.push(String::from_str("Frontend Next.js non détecté"));
    }
    if scripts.path.is_none() {
        warnings.push(String::from_str("Dossier scripts non détecté (scripts/)"));
    }
    let ghost head = views_of(warnings@);
    proof {
        assert(head =~= spec_scan_warnings(
            backend_path is Some,
            frontend_path is Some,
            scripts.path is Some,
        ));
    }
    let mut k: usize = 0;
    while k < scripts.warnings.len()
        invariant
            k <= scripts.warnings@.len(),
            views_of(warnings@) =~~= head + views_of(scripts.warnings@.take(k as int)),
            head == spec_scan_warnings(
                backend_path is Some,
                frontend_path is Some,
                scripts.path is Some,
            ),
        decreases scripts.warnings@.len() - k,
    {
        let ghost prev = warnings@;
        warnings.push(scripts.warnings[k].clone());
        proof {
            assert(warnings@ =~= prev.push(warnings@[prev.len() as int]));
            assert(views_of(warnings@) =~= views_of(prev).push(warnings@[prev.len() as int]@));
            assert(scripts.warnings@.take(k + 1) =~= scripts.warnings@.take(k as int).push(
                scripts.warnings@[k as int],
            ));
            assert(views_of(scripts.warnings@.take(k + 1)) =~= views_of(
                scripts.warnings@.take(k as int),
            ).push(scripts.warnings@[k as int]@));
            assert(views_of(warnings@) =~~= head + views_of(scripts.warnings@.take(k + 1)));
        }
        k += 1;
    }
    assert(scripts.warnings@.take(scripts.warnings@.len() as int) =~= scripts.warnings@);
    let backend_start = match &scripts.scripts.backend {
        Some(p) => Some(p.start.clone()),
        None => None,
    };
    let backend_stop = match &scripts.scripts.backend {
        Some(p) => match &p.stop {
            Some(q) => Some(q.clone()),
            None => None,
        },
        None => None,
    };
    let frontend_start = match &scripts.scripts.frontend {
        Some(p) => Some(p.start.clone()),
        None => None,
    };
    let frontend_stop = match &scripts.scripts.frontend {
        Some(p) => match &p.stop {
            Some(q) => Some(q.clone()),
            None => None,
        },
        None => None,
    };
    ProjectScanResult {
        name,
        backend_path,
        backend_port,
        backend_start,
        backend_stop,
        frontend_path,
        frontend_port,
        frontend_start,
        frontend_stop,
        scripts_path: scripts.path,
        scripts: scripts.scripts,
        warnings,
    }
}

/// Relies on chrono's `Utc::now` and `DateTime::to_rfc3339` for the current
/// time in RFC 3339 form. Nothing is assumed about the value. `Utc::now`
/// panics when the system clock stands before the Unix epoch; no input
/// of this crate can exclude that environmental condition.
#[verifier::external_body]
fn now_rfc3339() -> String {
    chrono::Utc::now().to_rfc3339()
}

/// The first path whose probe succeeded, in order.
pub fn first_existing_path(paths: &Vec<String>, exists_flags: &Vec<bool>) -> (r: Option<String>)
    requires
        paths@.len() == exists_flags@.len(),
    ensures
        match r {
            Some(p) => exists|i: int|
                0 <= i < paths@.len() && exists_flags@[i] && p@ == paths@[i]@ && forall|j: int|
                    0 <= j < i ==> !exists_flags@[j],
            None => forall|j: int| 0 <= j < exists_flags@.len() ==> !exists_flags@[j],
        },
{
    let mut i: usize = 0;
    while i < paths.len()
        invariant
            i <= paths@.len(),
            paths@.len() == exists_flags@.len(),
            forall|j: int| 0 <= j < i ==> !exists_flags@[j],
        decreases paths@.len() - i,
    {
        if exists_flags[i] {
            return Some(paths[i].clone());
        }
        i += 1;
    }
    None
}

/// Builds the registered descriptor a quick scan yields: the directory
/// name doubles as identifier and display name, missing paths stay empty,
/// and the framework default ports are assumed.
pub fn build_project_v3(
    root_path: String,
    dir_name: &str,
    backend_path: Option<String>,
    frontend_path: Option<String>,
) -> (r: ProjectV3)
    ensures
        r.id@ == dir_name@,
        r.name@ == dir_name@,
        r.root_path == root_path,
        (match backend_path {
            Some(p) => r.backend_path == p,
            None => r.backend_path@ == Seq::<char>::empty(),
        }),
        (match frontend_path {
            Some(p) => r.frontend_path == p,
            None => r.frontend_path@ == Seq::<char>::empty(),
        }),
        r.ports.backend == 3010,
        r.ports.frontend == 3000,
        r.environment is None,
        r.tunnel is None,
        r.backend is None,
        r.frontend is None,
        r.commands is None,
{
    let name = String::from_str(dir_name);
    let id = name.clone();
    let backend_path = match backend_path {
        Some(p) => p,
        None => String::new(),
    };
    let frontend_path = match frontend_path {
        Some(p) => p,
        None => String::new(),
    };
    ProjectV3 {
        id,
        name,
        root_path,
        backend_path,
        frontend_path,
        ports: Ports { backend: 3010, frontend: 3000 },
        environment: None,
        tunnel: None,
        backend: None,
        frontend: None,
        commands: None,
        created_at: now_rfc3339(),
    }
}

} // verus!
