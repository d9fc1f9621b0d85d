//! The in-band administrative commands: their grammar, the texts they print
//! and their exit codes.

use vstd::prelude::*;
use crate::text::{split_whitespace, str_eq, views, words};

verus! {

/// A recognized administrative command.
#[derive(Debug, Clone, Copy, PartialEq, Eq, Structural)]
pub enum GatewayControlCommand {
    Help,
    Destroy { yes: bool, keep_workspace: bool, dry_run: bool, force: bool },
    ExecList,
    ExecStop,
    ExecPause,
    ExecStats { current: bool, watch: bool },
}

/// The word that marks an exec payload as an administrative command.
pub open spec fn command_word() -> Seq<char> {
    "agentman"@
}

pub open spec fn is_yes_flag(w: Seq<char>) -> bool {
    w == "--yes"@ || w == "-y"@
}

pub open spec fn is_watch_flag(w: Seq<char>) -> bool {
    w == "--watch"@ || w == "-w"@
}

/// The options that `destroy` takes.
pub open spec fn is_destroy_flag(w: Seq<char>) -> bool {
    is_yes_flag(w) || w == "--keep-workspace"@ || w == "--dry-run"@ || w == "--force"@
}

/// The options that `stats` takes.
pub open spec fn is_stats_flag(w: Seq<char>) -> bool {
    w == "--current"@ || is_watch_flag(w)
}

/// `destroy` with the given arguments: each option that occurs is set; any
/// other argument turns the command into a request for help.
pub open spec fn parse_destroy_args(args: Seq<Seq<char>>) -> GatewayControlCommand {
    if forall|i: int| 0 <= i < args.len() ==> is_destroy_flag(#[trigger] args[i]) {
        GatewayControlCommand::Destroy {
            yes: exists|i: int| 0 <= i < args.len() && is_yes_flag(#[trigger] args[i]),
            keep_workspace: args.contains("--keep-workspace"@),
            dry_run: args.contains("--dry-run"@),
            force: args.contains("--force"@),
        }
    } else {
        GatewayControlCommand::Help
    }
}

/// `stats` with the given arguments.
pub open spec fn parse_stats_args(args: Seq<Seq<char>>) -> GatewayControlCommand {
    if forall|i: int| 0 <= i < args.len() ==> is_stats_flag(#[trigger] args[i]) {
        GatewayControlCommand::ExecStats {
            current: args.contains("--current"@),
            watch: exists|i: int| 0 <= i < args.len() && is_watch_flag(#[trigger] args[i]),
        }
    } else {
        GatewayControlCommand::Help
    }
}

/// A subcommand that takes no argument.
pub open spec fn parse_bare(
    args: Seq<Seq<char>>,
    command: GatewayControlCommand,
) -> GatewayControlCommand {
    if args.len() == 0 {
        command
    } else {
        GatewayControlCommand::Help
    }
}

/// One of the subcommands proper with its arguments.
pub open spec fn parse_plain_subcommand(
    sub: Seq<char>,
    args: Seq<Seq<char>>,
) -> GatewayControlCommand {
    if sub == "list"@ {
        parse_bare(args, GatewayControlCommand::ExecList)
    } else if sub == "stop"@ {
        parse_bare(args, GatewayControlCommand::ExecStop)
    } else if sub == "pause"@ {
        parse_bare(args, GatewayControlCommand::ExecPause)
    } else if sub == "stats"@ {
        parse_stats_args(args)
    } else if sub == "destroy"@ {
        parse_destroy_args(args)
    } else {
        GatewayControlCommand::Help
    }
}

/// A subcommand, given directly or once behind the alias word `exec`.
pub open spec fn parse_subcommand(sub: Seq<char>, args: Seq<Seq<char>>) -> GatewayControlCommand {
    if sub == "exec"@ && args.len() > 0 {
        parse_plain_subcommand(args[0], args.skip(1))
    } else {
        parse_plain_subcommand(sub, args)
    }
}

/// The command that a payload's words spell, if its first word is the
/// command word. Whatever follows and is not understood asks for help.
pub open spec fn parse_control_words(w: Seq<Seq<char>>) -> Option<GatewayControlCommand> {
    if w.len() == 0 || w[0] != command_word() {
        None
    } else if w.len() == 1 {
        Some(GatewayControlCommand::Help)
    } else {
        Some(parse_subcommand(w[1], w.skip(2)))
    }
}

fn parse_destroy(w: &Vec<String>, from: usize) -> (r: GatewayControlCommand)
    requires
        from <= w.len(),
    ensures
        r == parse_destroy_args(views(w@).skip(from as int)),
{
    let ghost args = views(w@).skip(from as int);
    let mut yes = false;
    let mut keep_workspace = false;
    let mut dry_run = false;
    let mut force = false;
    let mut i: usize = from;
    while i < w.len()
        invariant
            from <= i <= w.len(),
            args == views(w@).skip(from as int),
            forall|j: int| 0 <= j < i - from ==> is_destroy_flag(#[trigger] args[j]),
            yes == exists|j: int| 0 <= j < i - from && is_yes_flag(#[trigger] args[j]),
            keep_workspace == args.take(i - from).contains("--keep-workspace"@),
            dry_run == args.take(i - from).contains("--dry-run"@),
            force == args.take(i - from).contains("--force"@),
        decreases w.len() - i,
    {
        let a = w[i].as_str();
        let ghost k = i - from;
        proof {
            assert(args[k] == a@);
            assert(args.take(k + 1) == args.take(k).push(a@));
            assert forall|x: Seq<char>| args.take(k + 1).contains(x) == (args.take(k).contains(x)
                || x == a@) by {
                if args.take(k).contains(x) {
                    let j = choose|j: int| 0 <= j < k && args.take(k)[j] == x;
                    assert(args.take(k + 1)[j] == x);
                }
                if x == a@ {
                    assert(args.take(k + 1)[k] == x);
                }
            }
        }
        if str_eq(a, "--yes") || str_eq(a, "-y") {
            yes = true;
        } else if str_eq(a, "--keep-workspace") {
            keep_workspace = true;
        } else if str_eq(a, "--dry-run") {
            dry_run = true;
        } else if str_eq(a, "--force") {
            force = true;
        } else {
            assert(!is_destroy_flag(args[k]));
            return GatewayControlCommand::Help;
        }
        proof {
            lemma_flags_differ();
        }
        i += 1;
    }
    assert(args.take(args.len() as int) == args);
    GatewayControlCommand::Destroy { yes, keep_workspace, dry_run, force }
}

/// The option words are pairwise different.
proof fn lemma_flags_differ()
    ensures
        "--yes"@ != "--keep-workspace"@,
        "--yes"@ != "--dry-run"@,
        "--yes"@ != "--force"@,
        "-y"@ != "--keep-workspace"@,
        "-y"@ != "--dry-run"@,
        "-y"@ != "--force"@,
        "--keep-workspace"@ != "--dry-run"@,
        "--keep-workspace"@ != "--force"@,
        "--dry-run"@ != "--force"@,
        "--current"@ != "--watch"@,
        "--current"@ != "-w"@,
{
    reveal_strlit("--yes");
    reveal_strlit("-y");
    reveal_strlit("--keep-workspace");
    reveal_strlit("--dry-run");
    reveal_strlit("--force");
    reveal_strlit("--current");
    reveal_strlit("--watch");
    reveal_strlit("-w");
    assert("--yes"@.len() == 5);
    assert("-y"@.len() == 2);
    assert("--keep-workspace"@.len() == 16);
    assert("--dry-run"@.len() == 9);
    assert("--force"@.len() == 7);
    assert("--current"@.len() == 9);
    assert("--watch"@.len() == 7);
    assert("-w"@.len() == 2);
    assert("--yes"@[2] == 'y');
    assert("--force"@[2] == 'f');
    assert("--watch"@[2] == 'w');
    assert("--dry-run"@[2] == 'd');
    assert("--current"@[2] == 'c');
}

fn parse_stats(w: &Vec<String>, from: usize) -> (r: GatewayControlCommand)
    requires
        from <= w.len(),
    ensures
        r == parse_stats_args(views(w@).skip(from as int)),
{
    let ghost args = views(w@).skip(from as int);
    let mut current = false;
    let mut watch = false;
    let mut i: usize = from;
    while i < w.len()
        invariant
            from <= i <= w.len(),
            args == views(w@).skip(from as int),
            forall|j: int| 0 <= j < i - from ==> is_stats_flag(#[trigger] args[j]),
            current == args.take(i - from).contains("--current"@),
            watch == exists|j: int| 0 <= j < i - from && is_watch_flag(#[trigger] args[j]),
        decreases w.len() - i,
    {
        let a = w[i].as_str();
        let ghost k = i - from;
        proof {
            assert(args[k] == a@);
            assert(args.take(k + 1) == args.take(k).push(a@));
            assert forall|x: Seq<char>| args.take(k + 1).contains(x) == (args.take(k).contains(x)
                || x == a@) by {
                if args.take(k).contains(x) {
                    let j = choose|j: int| 0 <= j < k && args.take(k)[j] == x;
                    assert(args.take(k + 1)[j] == x);
                }
                if x == a@ {
                    assert(args.take(k + 1)[k] == x);
                }
            }
        }
        if str_eq(a, "--current") {
            current = true;
        } else if str_eq(a, "--watch") || str_eq(a, "-w") {
            watch = true;
        } else {
            assert(!is_stats_flag(args[k]));
            return GatewayControlCommand::Help;
        }
        proof {
            lemma_flags_differ();
        }
        i += 1;
    }
    assert(args.take(args.len() as int) == args);
    GatewayControlCommand::ExecStats { current, watch }
}

fn parse_plain(w: &Vec<String>, at: usize) -> (r: GatewayControlCommand)
    requires
        at < w.len(),
    ensures
        r == parse_plain_subcommand(views(w@)[at as int], views(w@).skip(at as int + 1)),
{
    let sub = w[at].as_str();
    let rest = at + 1;
    let bare = rest == w.len();
    if str_eq(sub, "list") {
        if bare {
            GatewayControlCommand::ExecList
        } else {
            GatewayControlCommand::Help
        }
    } else if str_eq(sub, "stop") {
        if bare {
            GatewayControlCommand::ExecStop
        } else {
            GatewayControlCommand::Help
        }
    } else if str_eq(sub, "pause") {
        if bare {
            GatewayControlCommand::ExecPause
        } else {
            GatewayControlCommand::Help
        }
    } else if str_eq(sub, "stats") {
        parse_stats(w, rest)
    } else if str_eq(sub, "destroy") {
        parse_destroy(w, rest)
    } else {
        GatewayControlCommand::Help
    }
}

fn parse_sub(w: &Vec<String>, at: usize) -> (r: GatewayControlCommand)
    requires
        at < w.len(),
    ensures
        r == parse_subcommand(views(w@)[at as int], views(w@).skip(at as int + 1)),
{
    let rest = at + 1;
    if str_eq(w[at].as_str(), "exec") && rest < w.len() {
        proof {
            let args = views(w@).skip(at as int + 1);
            assert(args[0] == views(w@)[rest as int]);
            assert(args.skip(1) == views(w@).skip(rest as int + 1));
        }
        parse_plain(w, rest)
    } else {
        parse_plain(w, at)
    }
}

/// Reads an exec payload as an administrative command.
///
/// `None` means that the payload is an ordinary command for the sandbox.
pub fn parse_gateway_control_command(cmd: &str) -> (r: Option<GatewayControlCommand>)
    ensures
        r == parse_control_words(words(cmd@)),
{
    let w = split_whitespace(cmd);
    if w.len() == 0 {
        return None;
    }
    if !str_eq(w[0].as_str(), "agentman") {
        return None;
    }
    if w.len() == 1 {
        return Some(GatewayControlCommand::Help);
    }
    Some(parse_sub(&w, 1))
}

} // verus!
