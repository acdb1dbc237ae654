//! Environment context for spawned scripts: the variables a service's
//! start/stop script receives, derived from the project descriptor. The
//! context travels as environment variables, never as command-line
//! arguments, so scripts stay agnostic of invocation shape.

use vstd::prelude::*;
use crate::project::ProjectV3;
use crate::text::{
    append_str, push_u64_digits, spec_digits, str_eq, string_from_chars, u64_to_string,
};

verus! {

/// The views of a pair list.
pub open spec fn pair_views(v: Seq<(String, String)>) -> Seq<(Seq<char>, Seq<char>)> {
    v.map_values(|p: (String, String)| (p.0@, p.1@))
}

/// The entry a configured override command adds, if one is set.
pub open spec fn spec_cmd_entry(cmd: Option<Seq<char>>, key: Seq<char>) -> Seq<
    (Seq<char>, Seq<char>),
> {
    match cmd {
        Some(c) => seq![(key, c)],
        None => Seq::empty(),
    }
}

/// The override command configured for `service`, if any.
pub open spec fn spec_command_for(p: ProjectV3, service: Seq<char>) -> Option<Seq<char>> {
    match p.commands {
        Some(cmds) => {
            let c = if service == "backend"@ {
                cmds.backend
            } else if service == "frontend"@ {
                cmds.frontend
            } else if service == "tunnel"@ {
                cmds.tunnel
            } else {
                cmds.netdata
            };
            match c {
                Some(s) => Some(s@),
                None => None,
            }
        },
        None => None,
    }
}

/// The environment a service's script receives: always the project root;
/// per service its path, port and configured command; for the tunnel its
/// connection parameters.
pub open spec fn spec_build_envs(p: ProjectV3, service: Seq<char>) -> Seq<(Seq<char>, Seq<char>)> {
    let base = seq![("PROJECT_ROOT_PATH"@, p.root_path@)];
    if service == "backend"@ {
        base + seq![
            ("PROJECT_BACKEND_PATH"@, p.backend_path@),
            ("PROJECT_BACKEND_PORT"@, spec_digits(p.ports.backend as nat)),
        ] + spec_cmd_entry(spec_command_for(p, service), "PROJECT_BACKEND_COMMAND"@)
    } else if service == "frontend"@ {
        base + seq![
            ("PROJECT_FRONTEND_PATH"@, p.frontend_path@),
            ("PROJECT_FRONTEND_PORT"@, spec_digits(p.ports.frontend as nat)),
        ] + spec_cmd_entry(spec_command_for(p, service), "PROJECT_FRONTEND_COMMAND"@)
    } else if service == "tunnel"@ {
        match p.tunnel {
            Some(t) => base + seq![
                ("PROJECT_TUNNEL_HOST"@, t.host@),
                ("PROJECT_TUNNEL_USER"@, t.user@),
                ("PROJECT_TUNNEL_PORT"@, spec_digits(t.port as nat)),
                ("PROJECT_LOCAL_MONGO"@, spec_digits(t.local_mongo as nat)),
                ("PROJECT_REMOTE_MONGO"@, spec_digits(t.remote_mongo as nat)),
                ("PROJECT_TUNNEL_KEY"@, t.private_key@),
            ] + spec_cmd_entry(spec_command_for(p, service), "PROJECT_TUNNEL_COMMAND"@),
            None => base,
        }
    } else if service == "netdata"@ {
        base + seq![("PROJECT_NETDATA_PORT"@, "19999"@)] + spec_cmd_entry(
            spec_command_for(p, service),
            "PROJECT_NETDATA_COMMAND"@,
        )
    } else {
        base
    }
}

/// Builds the environment variable assignments for one service's script.
pub fn build_envs(project: &ProjectV3, service: &str) -> (r: Vec<(String, String)>)
    ensures
        pair_views(r@) == spec_build_envs(*project, service@),
{
    let mut envs: Vec<(String, String)> = Vec::new();
    envs.push((String::from_str("PROJECT_ROOT_PATH"), project.root_path.clone()));
    assert(pair_views(envs@) =~~= seq![("PROJECT_ROOT_PATH"@, project.root_path@)]);
    let ghost base = pair_views(envs@);
    if str_eq(service, "backend") {
        envs.push((String::from_str("PROJECT_BACKEND_PATH"), project.backend_path.clone()));
        envs.push(
            (
                String::from_str("PROJECT_BACKEND_PORT"),
                u64_to_string(project.ports.backend as u64),
            ),
        );
        assert(pair_views(envs@) =~~= base + seq![
            ("PROJECT_BACKEND_PATH"@, project.backend_path@),
            ("PROJECT_BACKEND_PORT"@, spec_digits(project.ports.backend as nat)),
        ]);
        let ghost mid = pair_views(envs@);
        match &project.commands {
            Some(cmds) => match &cmds.backend {
                Some(cmd) => {
                    envs.push((String::from_str("PROJECT_BACKEND_COMMAND"), cmd.clone()));
                    assert(pair_views(envs@) =~~= mid + seq![
                        ("PROJECT_BACKEND_COMMAND"@, cmd@),
                    ]);
                },
                None => {},
            },
            None => {},
        }
        assert(pair_views(envs@) =~~= spec_build_envs(*project, service@));
    } else if str_eq(service, "frontend") {
        envs.push((String::from_str("PROJECT_FRONTEND_PATH"), project.frontend_path.clone()));
        envs.push(
            (
                String::from_str("PROJECT_FRONTEND_PORT"),
                u64_to_string(project.ports.frontend as u64),
            ),
        );
        assert(pair_views(envs@) =~~= base + seq![
            ("PROJECT_FRONTEND_PATH"@, project.frontend_path@),
            ("PROJECT_FRONTEND_PORT"@, spec_digits(project.ports.frontend as nat)),
        ]);
        let ghost mid = pair_views(envs@);
        match &project.commands {
            Some(cmds) => match &cmds.frontend {
                Some(cmd) => {
                    envs.push((String::from_str("PROJECT_FRONTEND_COMMAND"), cmd.clone()));
                    assert(pair_views(envs@) =~~= mid + seq![
                        ("PROJECT_FRONTEND_COMMAND"@, cmd@),
                    ]);
                },
                None => {},
            },
            None => {},
        }
        assert(pair_views(envs@) =~~= spec_build_envs(*project, service@));
    } else if str_eq(service, "tunnel") {
        match &project.tunnel {
            Some(t) => {
                envs.push((String::from_str("PROJECT_TUNNEL_HOST"), t.host.clone()));
                envs.push((String::from_str("PROJECT_TUNNEL_USER"), t.user.clone()));
                envs.push(
                    (String::from_str("PROJECT_TUNNEL_PORT"), u64_to_string(t.port as u64)),
                );
                envs.push(
                    (String::from_str("PROJECT_LOCAL_MONGO"), u64_to_string(t.local_mongo as u64)),
                );
                envs.push(
                    (
                        String::from_str("PROJECT_REMOTE_MONGO"),
                        u64_to_string(t.remote_mongo as u64),
                    ),
                );
                envs.push((String::from_str("PROJECT_TUNNEL_KEY"), t.private_key.clone()));
                assert(pair_views(envs@) =~~= base + seq![
                    ("PROJECT_TUNNEL_HOST"@, t.host@),
                    ("PROJECT_TUNNEL_USER"@, t.user@),
                    ("PROJECT_TUNNEL_PORT"@, spec_digits(t.port as nat)),
                    ("PROJECT_LOCAL_MONGO"@, spec_digits(t.local_mongo as nat)),
                    ("PROJECT_REMOTE_MONGO"@, spec_digits(t.remote_mongo as nat)),
                    ("PROJECT_TUNNEL_KEY"@, t.private_key@),
                ]);
                let ghost mid = pair_views(envs@);
                match &project.commands {
                    Some(cmds) => match &cmds.tunnel {
                        Some(cmd) => {
                            envs.push((String::from_str("PROJECT_TUNNEL_COMMAND"), cmd.clone()));
                            assert(pair_views(envs@) =~~= mid + seq![
                                ("PROJECT_TUNNEL_COMMAND"@, cmd@),
                            ]);
                        },
                        None => {},
                    },
                    None => {},
                }
            },
            None => {},
        }
        assert(pair_views(envs@) =~~= spec_build_envs(*project, service@));
    } else if str_eq(service, "netdata") {
        envs.push((String::from_str("PROJECT_NETDATA_PORT"), String::from_str("19999")));
        assert(pair_views(envs@) =~~= base + seq![("PROJECT_NETDATA_PORT"@, "19999"@)]);
        let ghost mid = pair_views(envs@);
        match &project.commands {
            Some(cmds) => match &cmds.netdata {
                Some(cmd) => {
                    envs.push((String::from_str("PROJECT_NETDATA_COMMAND"), cmd.clone()));
                    assert(pair_views(envs@) =~~= mid + seq![
                        ("PROJECT_NETDATA_COMMAND"@, cmd@),
                    ]);
                },
                None => {},
            },
            None => {},
        }
        assert(pair_views(envs@) =~~= spec_build_envs(*project, service@));
    } else {
        assert(pair_views(envs@) =~~= spec_build_envs(*project, service@));
    }
    envs
}

/// The port-forward pattern an SSH tunnel process carries on its command
/// line: `<localPort>:127.0.0.1:<remotePort>`.
pub open spec fn spec_forward_pattern(local: u16, remote: u16) -> Seq<char> {
    spec_digits(local as nat) + ":127.0.0.1:"@ + spec_digits(remote as nat)
}

/// Builds the tunnel's local-to-remote port-forward pattern.
pub fn tunnel_forward_pattern(local: u16, remote: u16) -> (r: String)
    ensures
        r@ == spec_forward_pattern(local, remote),
{
    let mut v: Vec<char> = Vec::new();
    push_u64_digits(local as u64, &mut v);
    append_str(&mut v, ":127.0.0.1:");
    push_u64_digits(remote as u64, &mut v);
    string_from_chars(&v)
}

} // verus!
