//! Compose lifecycle requests: the actions, the command line handed to the
//! runtime's compose tool, and the short-circuit of a dry run.

use vstd::prelude::*;
use crate::metrics::{Metrics, Tally, increment_compose_action, next_count};
use crate::text::{decimal, decimal_string, owned};

verus! {

#[derive(Copy, Clone, Debug, Eq, PartialEq, Structural)]
pub enum ComposeAction {
    Build,
    Pull,
    Up,
    Start,
    Stop,
    Restart,
    Push,
    Ps,
    Logs,
}

pub open spec fn action_name(a: ComposeAction) -> Seq<char> {
    match a {
        ComposeAction::Build => "build"@,
        ComposeAction::Pull => "pull"@,
        ComposeAction::Up => "up"@,
        ComposeAction::Start => "start"@,
        ComposeAction::Stop => "stop"@,
        ComposeAction::Restart => "restart"@,
        ComposeAction::Push => "push"@,
        ComposeAction::Ps => "ps"@,
        ComposeAction::Logs => "logs"@,
    }
}

impl ComposeAction {
    /// The action's name on the compose command line.
    pub fn as_str(&self) -> (r: &'static str)
        ensures
            r@ == action_name(*self),
    {
        match self {
            Self::Build => "build",
            Self::Pull => "pull",
            Self::Up => "up",
            Self::Start => "start",
            Self::Stop => "stop",
            Self::Restart => "restart",
            Self::Push => "push",
            Self::Ps => "ps",
            Self::Logs => "logs",
        }
    }
}

/// Outcome of a compose action.
#[derive(Debug)]
pub struct ComposeResult {
    pub action: String,
    pub services: Vec<String>,
    pub success: bool,
    pub status_code: Option<i32>,
    pub stdout: String,
    pub stderr: String,
}

/// A compose action on some services (all of them when the list is empty).
#[derive(Debug)]
pub struct ComposeRequest {
    pub action: ComposeAction,
    pub services: Vec<String>,
    pub file: String,
    pub project: Option<String>,
    pub detach: bool,
    pub tail: Option<u32>,
    pub dry_run: bool,
}

pub const DEFAULT_COMPOSE_FILE: &'static str = "docker-compose.yml";

pub fn default_compose_file() -> (r: String)
    ensures
        r@ == DEFAULT_COMPOSE_FILE@,
{
    owned(DEFAULT_COMPOSE_FILE)
}

pub open spec fn string_views(v: Seq<String>) -> Seq<Seq<char>> {
    v.map_values(|s: String| s@)
}

/// Flags that depend on the action: `up` detaches with `-d`; `logs` follows
/// with `-f` and limits its output with `--tail N`.
pub open spec fn action_flags(action: ComposeAction, detach: bool, tail: Option<u32>) -> Seq<
    Seq<char>,
> {
    match action {
        ComposeAction::Up => if detach {
            seq!["-d"@]
        } else {
            seq![]
        },
        ComposeAction::Logs => (if detach {
            seq!["-f"@]
        } else {
            seq![]
        }) + match tail {
            Some(t) => seq!["--tail"@, decimal(t as nat)],
            None => seq![],
        },
        _ => seq![],
    }
}

/// Arguments of the runtime's compose tool for a request:
/// `compose -f FILE [-p PROJECT] ACTION [flags] SERVICES...`, where an empty
/// project name is left out.
pub open spec fn cli_args(
    file: Seq<char>,
    project: Option<Seq<char>>,
    action: ComposeAction,
    services: Seq<Seq<char>>,
    detach: bool,
    tail: Option<u32>,
) -> Seq<Seq<char>> {
    seq!["compose"@, "-f"@, file] + match project {
        Some(p) => if p.len() > 0 {
            seq!["-p"@, p]
        } else {
            seq![]
        },
        None => seq![],
    } + seq![action_name(action)] + action_flags(action, detach, tail) + services
}

pub open spec fn opt_view(o: Option<String>) -> Option<Seq<char>> {
    match o {
        Some(s) => Some(s@),
        None => None,
    }
}

/// The compose tool's arguments for these parameters, as `cli_args` states.
pub fn compose_cli_args(
    file: &String,
    project: &Option<String>,
    action: ComposeAction,
    services: &Vec<String>,
    detach: bool,
    tail: Option<u32>,
) -> (r: Vec<String>)
    ensures
        string_views(r@) == cli_args(
            file@,
            opt_view(*project),
            action,
            string_views(services@),
            detach,
            tail,
        ),
{
    let mut args: Vec<String> = vec![owned("compose"), owned("-f"), file.clone()];
    let ghost head = string_views(args@);
    match project {
        Some(p) => {
            if !p.as_str().is_empty() {
                args.push(owned("-p"));
                args.push(p.clone());
            }
        },
        None => {},
    }
    args.push(owned(action.as_str()));
    match action {
        ComposeAction::Up => {
            if detach {
                args.push(owned("-d"));
            }
        },
        ComposeAction::Logs => {
            if detach {
                args.push(owned("-f"));
            }
            match tail {
                Some(t) => {
                    args.push(owned("--tail"));
                    args.push(decimal_string(t as u64));
                },
                None => {},
            }
        },
        _ => {},
    }
    let ghost before = string_views(args@);
    assert(before =~= cli_args(
        file@,
        opt_view(*project),
        action,
        Seq::empty(),
        detach,
        tail,
    ));
    let mut i: usize = 0;
    while i < services.len()
        invariant
            i <= services@.len(),
            string_views(args@) == before + string_views(services@.subrange(0, i as int)),
        decreases services@.len() - i,
    {
        let ghost prev = args@;
        let s = services[i].clone();
        assert(s@ == services@[i as int]@);
        args.push(s);
        assert(string_views(args@) =~= string_views(prev).push(s@));
        assert(string_views(services@.subrange(0, i + 1)) =~= string_views(
            services@.subrange(0, i as int),
        ).push(s@));
        i = i + 1;
        assert(string_views(args@) =~= before + string_views(services@.subrange(0, i as int)));
    }
    assert(services@.subrange(0, i as int) =~= services@);
    assert(string_views(args@) =~= cli_args(
        file@,
        opt_view(*project),
        action,
        string_views(services@),
        detach,
        tail,
    ));
    args
}

/// A dry run does nothing: it reports success with `dry-run` as output and
/// counts a successful action.
pub fn dry_run_result(metrics: &mut Metrics, request: ComposeRequest) -> (r: ComposeResult)
    ensures
        r.action@ == action_name(request.action),
        r.services == request.services,
        r.success,
        r.status_code == Some(0i32),
        r.stdout@ == "dry-run"@,
        r.stderr@ == Seq::<char>::empty(),
        final(metrics).counts() == (Tally {
            compose_actions: next_count(old(metrics).counts().compose_actions),
            ..old(metrics).counts()
        }),
{
    increment_compose_action(metrics, request.action.as_str(), true);
    ComposeResult {
        action: owned(request.action.as_str()),
        services: request.services,
        success: true,
        status_code: Some(0),
        stdout: owned("dry-run"),
        stderr: String::new(),
    }
}

/// Exit code of the compose command: the tool's own, or 0 / 1 by outcome when
/// it reported none.
pub fn exit_code(code: Option<i32>, success: bool) -> (r: i32)
    ensures
        r == match code {
            Some(c) => c,
            None => if success {
                0i32
            } else {
                1i32
            },
        },
{
    match code {
        Some(c) => c,
        None => if success {
            0
        } else {
            1
        },
    }
}

} // verus!
