//! The project registry's data model and its in-memory edits. Reading and
//! writing the on-disk file belongs to the surrounding shell; the rules —
//! unique names, update and delete by name — live here.

use vstd::prelude::*;
use crate::text::{append_str, str_eq, string_from_chars};

verus! {

/// A service's configured command pair and port.
#[derive(Debug, Clone)]
pub struct ProjectCommand {
    pub start: String,
    pub stop: Option<String>,
    pub port: Option<u16>,
}

/// Which services a project configures.
#[derive(Debug, Clone)]
pub struct ProjectServices {
    pub tunnel: Option<ProjectCommand>,
    pub backend: Option<ProjectCommand>,
    pub frontend: Option<ProjectCommand>,
    pub netdata: Option<ProjectCommand>,
}

/// A registered project.
#[derive(Debug, Clone)]
pub struct Project {
    pub name: String,
    pub backend_path: String,
    pub frontend_path: String,
    pub scripts_path: String,
    pub services: ProjectServices,
}

/// The set of registered projects.
#[derive(Debug, Clone)]
pub struct ProjectConfig {
    pub projects: Vec<Project>,
}

/// "A project with the name '`n`' already exists".
pub open spec fn spec_duplicate_msg(name: Seq<char>) -> Seq<char> {
    "A project with the name '"@ + name + "' already exists"@
}

/// "Project '`n`' not found".
pub open spec fn spec_not_found_msg(name: Seq<char>) -> Seq<char> {
    "Project '"@ + name + "' not found"@
}

/// Whether some project carries this name.
pub open spec fn spec_has_name(projects: Seq<Project>, name: Seq<char>) -> bool {
    exists|i: int| 0 <= i < projects.len() && (#[trigger] projects[i]).name@ == name
}

/// Adds a project; a second project under an existing name is refused.
pub fn add_project(config: &mut ProjectConfig, project: Project) -> (r: Result<(), String>)
    ensures
        ({
            if spec_has_name(old(config).projects@, project.name@) {
                &&& r matches Err(m) && m@ == spec_duplicate_msg(project.name@)
                &&& *final(config) == *old(config)
            } else {
                &&& r is Ok
                &&& final(config).projects@ == old(config).projects@.push(project)
            }
        }),
{
    let mut i: usize = 0;
    while i < config.projects.len()
        invariant
            i <= config.projects@.len(),
            forall|j: int| 0 <= j < i ==> (#[trigger] config.projects@[j]).name@ != project.name@,
        decreases config.projects@.len() - i,
    {
        if str_eq(config.projects[i].name.as_str(), project.name.as_str()) {
            let mut m: Vec<char> = Vec::new();
            append_str(&mut m, "A project with the name '");
            append_str(&mut m, project.name.as_str());
            append_str(&mut m, "' already exists");
            return Err(string_from_chars(&m));
        }
        i += 1;
    }
    config.projects.push(project);
    Ok(())
}

/// The first index holding `name`, if any.
fn index_of_name(config: &ProjectConfig, name: &str) -> (r: Option<usize>)
    ensures
        match r {
            Some(i) => i < config.projects@.len() && config.projects@[i as int].name@ == name@
                && forall|j: int| 0 <= j < i ==> (#[trigger] config.projects@[j]).name@ != name@,
            None => !spec_has_name(config.projects@, name@),
        },
{
    let mut i: usize = 0;
    while i < config.projects.len()
        invariant
            i <= config.projects@.len(),
            forall|j: int| 0 <= j < i ==> (#[trigger] config.projects@[j]).name@ != name@,
        decreases config.projects@.len() - i,
    {
        if str_eq(config.projects[i].name.as_str(), name) {
            return Some(i);
        }
        i += 1;
    }
    None
}

/// Replaces the project that carries the same name; an unknown name is an
/// error.
pub fn update_project(config: &mut ProjectConfig, project: Project) -> (r: Result<(), String>)
    ensures
        ({
            if spec_has_name(old(config).projects@, project.name@) {
                &&& r is Ok
                &&& exists|i: int|
                    0 <= i < old(config).projects@.len() && (#[trigger] old(
                        config,
                    ).projects@[i]).name@ == project.name@ && final(config).projects@ == old(
                        config,
                    ).projects@.update(i, project)
            } else {
                &&& r matches Err(m) && m@ == spec_not_found_msg(project.name@)
                &&& *final(config) == *old(config)
            }
        }),
{
    match index_of_name(config, project.name.clone().as_str()) {
        Some(i) => {
            config.projects.set(i, project);
            Ok(())
        },
        None => {
            let mut m: Vec<char> = Vec::new();
            append_str(&mut m, "Project '");
            append_str(&mut m, project.name.as_str());
            append_str(&mut m, "' not found");
            Err(string_from_chars(&m))
        },
    }
}

/// Removes the project under `project_name`; an unknown name is an error.
pub fn delete_project(config: &mut ProjectConfig, project_name: &str) -> (r: Result<(), String>)
    ensures
        ({
            if spec_has_name(old(config).projects@, project_name@) {
                &&& r is Ok
                &&& exists|i: int|
                    0 <= i < old(config).projects@.len() && (#[trigger] old(
                        config,
                    ).projects@[i]).name@ == project_name@ && final(config).projects@ == old(
                        config,
                    ).projects@.remove(i)
            } else {
                &&& r matches Err(m) && m@ == spec_not_found_msg(project_name@)
                &&& *final(config) == *old(config)
            }
        }),
{
    match index_of_name(config, project_name) {
        Some(i) => {
            config.projects.remove(i);
            Ok(())
        },
        None => {
            let mut m: Vec<char> = Vec::new();
            append_str(&mut m, "Project '");
            append_str(&mut m, project_name);
            append_str(&mut m, "' not found");
            Err(string_from_chars(&m))
        },
    }
}

/// The first project whose backend or frontend path equals `path`, if any;
/// projects are looked up by the path a caller is standing in.
pub fn find_project_by_path<'a>(config: &'a ProjectConfig, path: &str) -> (r: Option<&'a Project>)
    ensures
        match r {
            Some(p) => (p.backend_path@ == path@ || p.frontend_path@ == path@) && exists|i: int|
                #![auto]
                0 <= i < config.projects@.len() && *p == config.projects@[i],
            None => forall|i: int|
                0 <= i < config.projects@.len() ==> (#[trigger] config.projects@[i]).backend_path@
                    != path@ && config.projects@[i].frontend_path@ != path@,
        },
{
    let mut i: usize = 0;
    while i < config.projects.len()
        invariant
            i <= config.projects@.len(),
            forall|j: int|
                0 <= j < i ==> (#[trigger] config.projects@[j]).backend_path@ != path@
                    && config.projects@[j].frontend_path@ != path@,
        decreases config.projects@.len() - i,
    {
        if str_eq(config.projects[i].backend_path.as_str(), path) || str_eq(
            config.projects[i].frontend_path.as_str(),
            path,
        ) {
            return Some(&config.projects[i]);
        }
        i += 1;
    }
    None
}

} // verus!
