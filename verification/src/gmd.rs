//! The developer-tool runner's data model: how an invocation's argument
//! vector is built and how its streamed log and exit events are shaped.
//! Spawning the tool and pumping its output belongs to the surrounding
//! shell.

use vstd::prelude::*;
use crate::text::{append_str, spec_join_sep, string_from_chars, append_joined};

verus! {

/// An invocation of the developer tool.
#[derive(Debug, Clone)]
pub struct GmdCommand {
    pub args: Vec<String>,
    pub cwd: Option<String>,
    pub project_id: Option<String>,
}

/// What a finished invocation produced.
#[derive(Debug, Clone)]
pub struct GmdResult {
    pub stdout: String,
    pub stderr: String,
    pub code: i32,
}

/// The immediate answer of a streamed invocation.
#[derive(Debug, Clone)]
pub struct GmdRunId {
    pub run_id: String,
}

/// One streamed output line.
#[derive(Debug, Clone)]
pub struct GmdLogEvent {
    pub run_id: String,
    pub ts: String,
    pub level: String,
    pub line: String,
    pub cmd: String,
    pub cwd: String,
}

/// The terminal event of a streamed invocation.
#[derive(Debug, Clone)]
pub struct GmdExitEvent {
    pub run_id: String,
    pub exit_code: i32,
}

/// The view of the argument list.
pub open spec fn arg_views(v: Seq<String>) -> Seq<Seq<char>> {
    v.map_values(|s: String| s@)
}

/// The argument vector an invocation passes to the tool: the configured
/// arguments, then the project identifier as the last argument when one
/// is set.
pub open spec fn spec_gmd_argv(cmd: GmdCommand) -> Seq<Seq<char>> {
    arg_views(cmd.args@) + (match cmd.project_id {
        Some(id) => seq![id@],
        None => Seq::<Seq<char>>::empty(),
    })
}

/// Builds the tool's argument vector.
pub fn gmd_argv(cmd: &GmdCommand) -> (r: Vec<String>)
    ensures
        arg_views(r@) == spec_gmd_argv(*cmd),
{
    let mut r: Vec<String> = Vec::new();
    let mut i: usize = 0;
    while i < cmd.args.len()
        invariant
            i <= cmd.args@.len(),
            r@.len() == i,
            forall|j: int| 0 <= j < i ==> (#[trigger] r@[j])@ == cmd.args@[j]@,
        decreases cmd.args@.len() - i,
    {
        r.push(cmd.args[i].clone());
        i += 1;
    }
    match &cmd.project_id {
        Some(id) => {
            r.push(id.clone());
        },
        None => {},
    }
    proof {
        assert(arg_views(r@) =~~= spec_gmd_argv(*cmd));
    }
    r
}

/// The displayed command line: the tool's name and its configured
/// arguments joined by spaces.
pub open spec fn spec_gmd_command_line(cmd: GmdCommand) -> Seq<char> {
    "gmdev "@ + spec_join_sep(arg_views(cmd.args@), ' ')
}

/// Builds the command line shown in log events.
pub fn gmd_command_line(cmd: &GmdCommand) -> (r: String)
    ensures
        r@ == spec_gmd_command_line(*cmd),
{
    let mut v: Vec<char> = Vec::new();
    append_str(&mut v, "gmdev ");
    append_joined(&mut v, &cmd.args, ' ');
    string_from_chars(&v)
}

/// The working directory shown in log events: the configured one, or the
/// current directory mark.
pub fn gmd_cwd_display(cmd: &GmdCommand) -> (r: String)
    ensures
        match cmd.cwd {
            Some(c) => r@ == c@,
            None => r@ == "."@,
        },
{
    match &cmd.cwd {
        Some(c) => c.clone(),
        None => String::from_str("."),
    }
}

/// Builds one streamed log event; `stderr_line` selects the stream label.
pub fn make_log_event(
    run_id: String,
    ts: String,
    stderr_line: bool,
    line: String,
    cmd: String,
    cwd: String,
) -> (r: GmdLogEvent)
    ensures
        r.run_id == run_id,
        r.ts == ts,
        stderr_line ==> r.level@ == "stderr"@,
        !stderr_line ==> r.level@ == "stdout"@,
        r.line == line,
        r.cmd == cmd,
        r.cwd == cwd,
{
    let level = if stderr_line {
        String::from_str("stderr")
    } else {
        String::from_str("stdout")
    };
    GmdLogEvent { run_id, ts, level, line, cmd, cwd }
}

/// Builds the terminal exit event.
pub fn make_exit_event(run_id: String, exit_code: i32) -> (r: GmdExitEvent)
    ensures
        r.run_id == run_id,
        r.exit_code == exit_code,
{
    GmdExitEvent { run_id, exit_code }
}

} // verus!
