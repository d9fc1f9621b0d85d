//! What the administrative commands do and print.
//!
//! A command that needs the container engine is carried out in steps: the
//! first function says what is to be asked of the engine, and a second one
//! turns the reply into the command's output and exit status.

use vstd::prelude::*;
use vstd::string::StringExecFns;
use crate::control::{
    is_destroy_flag, is_yes_flag, parse_destroy_args, GatewayControlCommand,
};
use crate::order::{sort_by_project, sorted_by_project};
use crate::provision::{destroy_report, DestroyOptions, DestroyResult};
use crate::state::{records_of, workspace_key, StateManager, WorkspaceInfo};
use crate::stats::{bytes_text, format_bytes, ContainerStatus, EngineOutcome, InspectOutcome};
use crate::text::{opt_view, views};

verus! {

pub const EXIT_OK: u32 = 0;

pub const EXIT_FAILED: u32 = 1;

pub const EXIT_CONFIRMATION_REQUIRED: u32 = 2;

/// The seconds between two refreshes of watched statistics.
pub const WATCH_INTERVAL_SECS: u64 = 1;

/// The seconds given to the engine for a container's statistics.
pub const STATS_TIMEOUT_SECS: u64 = 5;

/// The milliseconds given to it when the statistics are watched.
pub const STATS_FAST_TIMEOUT_MS: u64 = 1500;

pub const HELP_TEXT: &'static str =
    "agentman gateway control commands\n\nUsage:\n  agentman destroy [--yes] [--keep-workspace] [--dry-run] [--force]\n  agentman list\n  agentman stop\n  agentman pause\n  agentman stats [--current] [--watch]\n\nNotes:\n  - Without --yes, destroy refuses to delete your persistent workspace directory.\n  - --keep-workspace stops/removes container(s) but keeps your files on disk.\n  - --dry-run prints what would be deleted.\n  - stop/pause apply to the *current* sandbox (the project in your SSH user).\n  - stats without --current shows all sandboxes for your GitHub user.\n  - --watch refreshes output every second (use Ctrl-C to exit).\n  - `agentman exec <cmd>` is accepted as an alias for these commands.\n";

pub const CONFIRMATION_TEXT: &'static str =
    "Refusing to destroy without confirmation.\nThis will stop/remove your container(s) and DELETE your persistent workspace.\n\nRun one of:\n  agentman destroy --yes\n  agentman destroy --keep-workspace\n  agentman destroy --dry-run\n";

/// The text that explains the commands.
pub fn gateway_control_help_text() -> (r: String)
    ensures
        r@ == HELP_TEXT@,
{
    HELP_TEXT.to_owned()
}

/// The text that tells how to confirm a `destroy`.
pub fn destroy_confirmation_required_text() -> (r: String)
    ensures
        r@ == CONFIRMATION_TEXT@,
{
    CONFIRMATION_TEXT.to_owned()
}

/// How a command ends.
#[derive(Debug, Clone)]
pub enum GatewayControlExecution {
    /// With this output and exit status.
    Immediate { exit_status: u32, output: String },
    /// Not by itself: the statistics are shown again and again.
    WatchStats { current: bool, interval_secs: u64 },
}

/// What a command leads to.
#[derive(Debug, Clone)]
pub enum ControlStep {
    /// The command is done.
    Finished(GatewayControlExecution),
    /// The workspace is to be destroyed with these options.
    Destroy(DestroyOptions),
    /// The containers of these workspaces are to be inspected, for the
    /// list.
    List(Vec<WorkspaceInfo>),
    /// The container of this workspace is to be inspected, to stop it.
    Stop(WorkspaceInfo),
    /// The container of this workspace is to be inspected, to pause it.
    Pause(WorkspaceInfo),
    /// The containers of these workspaces are to be inspected and
    /// measured.
    Stats(Vec<WorkspaceInfo>),
}

/// A `destroy` is confirmed by `--yes`, by `--keep-workspace` and by
/// `--dry-run`.
pub open spec fn is_confirmed(yes: bool, keep_workspace: bool, dry_run: bool) -> bool {
    yes || keep_workspace || dry_run
}

/// What kind of thing a command leads to at first.
pub enum PlanKind {
    Help,
    RefuseDestroy,
    Destroy(DestroyOptions),
    List,
    Stop,
    Pause,
    Watch(bool),
    Stats(bool),
}

/// The plan of a command. A `destroy` that is not confirmed is refused.
pub open spec fn plan_of(ctrl: GatewayControlCommand) -> PlanKind {
    match ctrl {
        GatewayControlCommand::Help => PlanKind::Help,
        GatewayControlCommand::Destroy { yes, keep_workspace, dry_run, force } => if is_confirmed(
            yes,
            keep_workspace,
            dry_run,
        ) {
            PlanKind::Destroy(DestroyOptions { keep_workspace, force, dry_run })
        } else {
            PlanKind::RefuseDestroy
        },
        GatewayControlCommand::ExecList => PlanKind::List,
        GatewayControlCommand::ExecStop => PlanKind::Stop,
        GatewayControlCommand::ExecPause => PlanKind::Pause,
        GatewayControlCommand::ExecStats { current, watch } => if watch {
            PlanKind::Watch(current)
        } else {
            PlanKind::Stats(current)
        },
    }
}

/// A `destroy` whose arguments are all options of the command, none of
/// them `--yes`, `-y`, `--keep-workspace` or `--dry-run`, is refused: it
/// leads to no request at all.
pub proof fn lemma_unconfirmed_destroy_is_refused(args: Seq<Seq<char>>)
    requires
        forall|i: int| 0 <= i < args.len() ==> is_destroy_flag(#[trigger] args[i]),
        forall|i: int| 0 <= i < args.len() ==> !is_yes_flag(#[trigger] args[i]),
        !args.contains("--keep-workspace"@),
        !args.contains("--dry-run"@),
    ensures
        plan_of(parse_destroy_args(args)) is RefuseDestroy,
{
}

/// A `destroy` is carried out only if one of its arguments confirms it.
pub proof fn lemma_destroy_needs_confirmation(args: Seq<Seq<char>>)
    requires
        plan_of(parse_destroy_args(args)) is Destroy,
    ensures
        exists|i: int|
            0 <= i < args.len() && (is_yes_flag(#[trigger] args[i]) || args[i]
                == "--keep-workspace"@ || args[i] == "--dry-run"@),
{
    let c = parse_destroy_args(args);
    if let GatewayControlCommand::Destroy { yes, keep_workspace, dry_run, force } = c {
        if yes {
            let i = choose|i: int| 0 <= i < args.len() && is_yes_flag(#[trigger] args[i]);
            assert(is_yes_flag(args[i]));
        } else if keep_workspace {
            let i = choose|i: int| 0 <= i < args.len() && args[i] == "--keep-workspace"@;
            assert(args[i] == "--keep-workspace"@);
        } else {
            let i = choose|i: int| 0 <= i < args.len() && args[i] == "--dry-run"@;
            assert(args[i] == "--dry-run"@);
        }
    }
}

/// The line that says that an identity has no sandboxes.
pub open spec fn no_sandboxes_text(github_user: Seq<char>) -> Seq<char> {
    "agentman: no sandboxes for "@ + github_user + "\n"@
}

/// The line that says that a workspace has no sandbox.
pub open spec fn no_sandbox_found_text(github_user: Seq<char>, project: Seq<char>) -> Seq<char> {
    "agentman: no sandbox found for "@ + github_user + "/"@ + project + "\n"@
}

/// The line that says that the current workspace has no sandbox.
pub open spec fn no_current_sandbox_text(github_user: Seq<char>, project: Seq<char>) -> Seq<char> {
    "agentman: no current sandbox found for "@ + github_user + "/"@ + project + "\n"@
}

fn text3(a: &str, b: &str, c: &str) -> (r: String)
    ensures
        r@ == a@ + b@ + c@,
{
    let mut out = String::from_str(a);
    out.append(b);
    out.append(c);
    out
}

fn text5(a: &str, b: &str, c: &str, d: &str, e: &str) -> (r: String)
    ensures
        r@ == a@ + b@ + c@ + d@ + e@,
{
    let mut out = String::from_str(a);
    out.append(b);
    out.append(c);
    out.append(d);
    out.append(e);
    out
}

fn immediate(exit_status: u32, output: String) -> (r: ControlStep)
    ensures
        r == ControlStep::Finished(GatewayControlExecution::Immediate { exit_status, output }),
{
    ControlStep::Finished(GatewayControlExecution::Immediate { exit_status, output })
}

/// Begins to carry out a command for an identity and its current project.
///
/// Help is printed at once. A `destroy` that is not confirmed is refused
/// with exit status 2 and the text that tells how to confirm it. The other
/// commands look their workspaces up in the state: the list and the
/// statistics take the identity's workspaces in the order of their
/// projects, `stop`, `pause` and the statistics of the current sandbox take
/// the workspace of the current project.
pub fn execute_gateway_control_command(
    ctrl: GatewayControlCommand,
    store: &StateManager,
    github_user: &str,
    project: &str,
) -> (r: ControlStep)
    requires
        store.well_formed(),
    ensures
        match plan_of(ctrl) {
            PlanKind::Help => r matches ControlStep::Finished(
                GatewayControlExecution::Immediate { exit_status, output },
            ) && exit_status == EXIT_OK && output@ == HELP_TEXT@,
            PlanKind::RefuseDestroy => r matches ControlStep::Finished(
                GatewayControlExecution::Immediate { exit_status, output },
            ) && exit_status == EXIT_CONFIRMATION_REQUIRED && output@ == CONFIRMATION_TEXT@,
            PlanKind::Destroy(opts) => r == ControlStep::Destroy(opts),
            PlanKind::Watch(current) => r == ControlStep::Finished(
                GatewayControlExecution::WatchStats { current, interval_secs: WATCH_INTERVAL_SECS },
            ),
            PlanKind::List => {
                let mine = records_of(store.record_list(), github_user@);
                if mine.len() == 0 {
                    r matches ControlStep::Finished(
                        GatewayControlExecution::Immediate { exit_status, output },
                    ) && exit_status == EXIT_OK && output@ == no_sandboxes_text(github_user@)
                } else {
                    &&& r matches ControlStep::List(list)
                    &&& sorted_by_project(list@)
                    &&& list@.to_multiset() == mine.to_multiset()
                }
            },
            PlanKind::Stop => {
                let k = workspace_key(github_user@, project@);
                if store.records().dom().contains(k) {
                    r == ControlStep::Stop(store.records()[k])
                } else {
                    r matches ControlStep::Finished(
                        GatewayControlExecution::Immediate { exit_status, output },
                    ) && exit_status == EXIT_FAILED && output@ == no_sandbox_found_text(
                        github_user@,
                        project@,
                    )
                }
            },
            PlanKind::Pause => {
                let k = workspace_key(github_user@, project@);
                if store.records().dom().contains(k) {
                    r == ControlStep::Pause(store.records()[k])
                } else {
                    r matches ControlStep::Finished(
                        GatewayControlExecution::Immediate { exit_status, output },
                    ) && exit_status == EXIT_FAILED && output@ == no_sandbox_found_text(
                        github_user@,
                        project@,
                    )
                }
            },
            PlanKind::Stats(true) => {
                let k = workspace_key(github_user@, project@);
                if store.records().dom().contains(k) {
                    r matches ControlStep::Stats(list) && list@ == seq![store.records()[k]]
                } else {
                    r matches ControlStep::Finished(
                        GatewayControlExecution::Immediate { exit_status, output },
                    ) && exit_status == EXIT_FAILED && output@ == no_current_sandbox_text(
                        github_user@,
                        project@,
                    )
                }
            },
            PlanKind::Stats(false) => {
                let mine = records_of(store.record_list(), github_user@);
                if mine.len() == 0 {
                    r matches ControlStep::Finished(
                        GatewayControlExecution::Immediate { exit_status, output },
                    ) && exit_status == EXIT_OK && output@ == no_sandboxes_text(github_user@)
                } else {
                    &&& r matches ControlStep::Stats(list)
                    &&& sorted_by_project(list@)
                    &&& list@.to_multiset() == mine.to_multiset()
                }
            },
        },
{
    match ctrl {
        GatewayControlCommand::Help => immediate(EXIT_OK, gateway_control_help_text()),
        GatewayControlCommand::Destroy { yes, keep_workspace, dry_run, force } => {
            if !dry_run && !keep_workspace && !yes {
                immediate(EXIT_CONFIRMATION_REQUIRED, destroy_confirmation_required_text())
            } else {
                ControlStep::Destroy(DestroyOptions { keep_workspace, force, dry_run })
            }
        },
        GatewayControlCommand::ExecList => {
            let mine = store.list_workspaces(github_user);
            if mine.len() == 0 {
                immediate(EXIT_OK, text3("agentman: no sandboxes for ", github_user, "\n"))
            } else {
                ControlStep::List(sort_by_project(&mine))
            }
        },
        GatewayControlCommand::ExecStop => match store.get_workspace(github_user, project) {
            None => immediate(
                EXIT_FAILED,
                text5("agentman: no sandbox found for ", github_user, "/", project, "\n"),
            ),
            Some(ws) => ControlStep::Stop(ws),
        },
        GatewayControlCommand::ExecPause => match store.get_workspace(github_user, project) {
            None => immediate(
                EXIT_FAILED,
                text5("agentman: no sandbox found for ", github_user, "/", project, "\n"),
            ),
            Some(ws) => ControlStep::Pause(ws),
        },
        GatewayControlCommand::ExecStats { current, watch } => {
            if watch {
                ControlStep::Finished(
                    GatewayControlExecution::WatchStats {
                        current,
                        interval_secs: WATCH_INTERVAL_SECS,
                    },
                )
            } else {
                stats_targets(store, github_user, project, current)
            }
        },
    }
}

/// The workspaces whose statistics are shown: the current one, or all of
/// the identity in the order of their projects; or the output that says
/// that there is none.
pub fn stats_targets(store: &StateManager, github_user: &str, project: &str, current: bool) -> (r:
    ControlStep)
    requires
        store.well_formed(),
    ensures
        if current {
            let k = workspace_key(github_user@, project@);
            if store.records().dom().contains(k) {
                r matches ControlStep::Stats(list) && list@ == seq![store.records()[k]]
            } else {
                r matches ControlStep::Finished(
                    GatewayControlExecution::Immediate { exit_status, output },
                ) && exit_status == EXIT_FAILED && output@ == no_current_sandbox_text(
                    github_user@,
                    project@,
                )
            }
        } else {
            let mine = records_of(store.record_list(), github_user@);
            if mine.len() == 0 {
                r matches ControlStep::Finished(
                    GatewayControlExecution::Immediate { exit_status, output },
                ) && exit_status == EXIT_OK && output@ == no_sandboxes_text(github_user@)
            } else {
                &&& r matches ControlStep::Stats(list)
                &&& sorted_by_project(list@)
                &&& list@.to_multiset() == mine.to_multiset()
            }
        },
{
    if current {
        match store.get_workspace(github_user, project) {
            None => immediate(
                EXIT_FAILED,
                text5("agentman: no current sandbox found for ", github_user, "/", project, "\n"),
            ),
            Some(ws) => {
                let mut list: Vec<WorkspaceInfo> = Vec::new();
                list.push(ws);
                ControlStep::Stats(list)
            },
        }
    } else {
        let mine = store.list_workspaces(github_user);
        if mine.len() == 0 {
            immediate(EXIT_OK, text3("agentman: no sandboxes for ", github_user, "\n"))
        } else {
            ControlStep::Stats(sort_by_project(&mine))
        }
    }
}

/// What a `destroy` prints: the report with exit status 0, or the failure
/// with exit status 1.
pub fn destroy_outcome(result: &Result<DestroyResult, String>) -> (r: (u32, String))
    ensures
        match *result {
            Ok(res) => r.0 == EXIT_OK && r.1@ == destroy_report(
                views(res.removed_containers@),
                res.workspace_path@,
                res.dry_run,
                res.workspace_deleted,
                res.workspace_would_be_deleted,
                res.state_entry_deleted,
                views(res.warnings@),
            ),
            Err(e) => r.0 == EXIT_FAILED && r.1@ == "Destroy failed: "@ + e@ + "\n"@,
        },
{
    match result {
        Ok(res) => (EXIT_OK, res.format_human()),
        Err(e) => (EXIT_FAILED, text3("Destroy failed: ", e.as_str(), "\n")),
    }
}

/// The mark of the current project.
pub open spec fn current_mark(is_current: bool) -> Seq<char> {
    if is_current {
        " (current)"@
    } else {
        Seq::empty()
    }
}

/// The short id as it is shown, if there is one.
pub open spec fn id_suffix(id_short: Option<String>) -> Seq<char> {
    match id_short {
        Some(id) => " id="@ + id@,
        None => Seq::empty(),
    }
}

/// A sandbox as the list shows it.
#[derive(Debug, Clone)]
pub struct ListRow {
    pub project: String,
    pub container_name: String,
    pub status: ContainerStatus,
}

/// The line of a sandbox in the list.
pub open spec fn list_line(row: ListRow, current_project: Seq<char>) -> Seq<char> {
    "- "@ + row.project@ + current_mark(row.project@ == current_project) + ": "@
        + row.status.status@ + "  container="@ + row.container_name@ + id_suffix(
        row.status.id_short,
    ) + "\n"@
}

/// The lines of the sandboxes in the list.
pub open spec fn list_lines(rows: Seq<ListRow>, current_project: Seq<char>) -> Seq<char>
    decreases rows.len(),
{
    if rows.len() == 0 {
        Seq::empty()
    } else {
        list_lines(rows.drop_last(), current_project) + list_line(rows.last(), current_project)
    }
}

fn push_current_mark(out: &mut String, is_current: bool)
    ensures
        final(out)@ == old(out)@ + current_mark(is_current),
{
    if is_current {
        out.append(" (current)");
    } else {
        assert(out@ + Seq::<char>::empty() =~= out@);
    }
}

fn push_id_suffix(out: &mut String, id_short: &Option<String>)
    ensures
        final(out)@ == old(out)@ + id_suffix(*id_short),
{
    match id_short {
        Some(id) => {
            out.append(" id=");
            out.append(id.as_str());
        },
        None => {
            assert(out@ + Seq::<char>::empty() =~= out@);
        },
    }
}

fn list_line_text(row: &ListRow, project: &str) -> (r: String)
    ensures
        r@ == list_line(*row, project@),
{
    let mut out = String::from_str("- ");
    out.append(row.project.as_str());
    push_current_mark(&mut out, crate::text::str_eq(row.project.as_str(), project));
    out.append(": ");
    out.append(row.status.status.as_str());
    out.append("  container=");
    out.append(row.container_name.as_str());
    push_id_suffix(&mut out, &row.status.id_short);
    out.append("\n");
    out
}

/// The list of an identity's sandboxes, with exit status 0.
pub fn render_sandbox_list(github_user: &str, project: &str, rows: &Vec<ListRow>) -> (r: (
    u32,
    String,
))
    ensures
        r.0 == EXIT_OK,
        r.1@ == "agentman: sandboxes for "@ + github_user@ + "\n"@ + list_lines(rows@, project@),
{
    let mut out = text3("agentman: sandboxes for ", github_user, "\n");
    let ghost head = out@;
    let mut i: usize = 0;
    assert(rows@.take(0) =~= Seq::<ListRow>::empty());
    assert(out@ =~= head + list_lines(rows@.take(0), project@));
    while i < rows.len()
        invariant
            i <= rows.len(),
            out@ == head + list_lines(rows@.take(i as int), project@),
        decreases rows.len() - i,
    {
        let row = &rows[i];
        proof {
            let t = rows@.take(i as int + 1);
            assert(t.drop_last() == rows@.take(i as int));
            assert(t.last() == *row);
        }
        let line = list_line_text(row, project);
        out.append(line.as_str());
        assert(out@ =~= head + (list_lines(rows@.take(i as int), project@) + line@));
        i += 1;
    }
    assert(rows@.take(rows.len() as int) == rows@);
    (EXIT_OK, out)
}

/// A sandbox as the statistics show it.
#[derive(Debug, Clone)]
pub struct StatsRow {
    pub project: String,
    pub status: ContainerStatus,
    /// The CPU share as a percentage with one decimal, without the sign.
    pub cpu_percent: Option<String>,
    pub memory: Option<(u64, u64)>,
    /// The size of the workspace on disk.
    pub storage: Option<u64>,
}

/// The CPU share as it is shown. A sandbox that does not run has none.
pub open spec fn cpu_part(row: StatsRow) -> Seq<char> {
    match row.cpu_percent {
        Some(p) if row.status.running => " cpu="@ + p@ + "%"@,
        _ => " cpu=n/a"@,
    }
}

/// The memory use as it is shown. A sandbox that does not run has none.
pub open spec fn memory_part(row: StatsRow) -> Seq<char> {
    match row.memory {
        Some((usage, limit)) if row.status.running => " mem="@ + bytes_text(usage) + "/"@
            + bytes_text(limit),
        _ => " mem=n/a"@,
    }
}

/// The size of the workspace as it is shown, where it is shown at all.
pub open spec fn storage_part(row: StatsRow, with_storage: bool) -> Seq<char> {
    if with_storage {
        " storage(workspace)="@ + (match row.storage {
            Some(s) => bytes_text(s),
            None => "n/a"@,
        })
    } else {
        Seq::empty()
    }
}

/// The line of a sandbox in the statistics.
pub open spec fn stats_line(row: StatsRow, current_project: Seq<char>, with_storage: bool) -> Seq<
    char,
> {
    "- "@ + row.project@ + current_mark(row.project@ == current_project) + ": status="@
        + row.status.status@ + id_suffix(row.status.id_short) + cpu_part(row) + memory_part(row)
        + storage_part(row, with_storage) + "\n"@
}

/// The lines of the sandboxes in the statistics.
pub open spec fn stats_lines(rows: Seq<StatsRow>, current_project: Seq<char>, with_storage: bool) -> Seq<
    char,
>
    decreases rows.len(),
{
    if rows.len() == 0 {
        Seq::empty()
    } else {
        stats_lines(rows.drop_last(), current_project, with_storage) + stats_line(
            rows.last(),
            current_project,
            with_storage,
        )
    }
}

fn push_cpu_part(out: &mut String, row: &StatsRow)
    ensures
        final(out)@ == old(out)@ + cpu_part(*row),
{
    let mut shown = false;
    if row.status.running {
        match &row.cpu_percent {
            Some(p) => {
                let mut part = String::from_str(" cpu=");
                part.append(p.as_str());
                part.append("%");
                out.append(part.as_str());
                shown = true;
            },
            None => {},
        }
    }
    if !shown {
        out.append(" cpu=n/a");
    }
}

fn push_memory_part(out: &mut String, row: &StatsRow)
    ensures
        final(out)@ == old(out)@ + memory_part(*row),
{
    let mut shown = false;
    if row.status.running {
        match row.memory {
            Some((usage, limit)) => {
                let mut part = String::from_str(" mem=");
                let u = format_bytes(usage);
                part.append(u.as_str());
                part.append("/");
                let l = format_bytes(limit);
                part.append(l.as_str());
                out.append(part.as_str());
                shown = true;
            },
            None => {},
        }
    }
    if !shown {
        out.append(" mem=n/a");
    }
}

fn push_storage_part(out: &mut String, row: &StatsRow, with_storage: bool)
    ensures
        final(out)@ == old(out)@ + storage_part(*row, with_storage),
{
    if with_storage {
        let mut part = String::from_str(" storage(workspace)=");
        match row.storage {
            Some(s) => {
                let t = format_bytes(s);
                part.append(t.as_str());
            },
            None => {
                part.append("n/a");
            },
        }
        out.append(part.as_str());
    } else {
        assert(out@ + Seq::<char>::empty() =~= out@);
    }
}

fn stats_line_text(row: &StatsRow, project: &str, with_storage: bool) -> (r: String)
    ensures
        r@ == stats_line(*row, project@, with_storage),
{
    let mut out = String::from_str("- ");
    out.append(row.project.as_str());
    push_current_mark(&mut out, crate::text::str_eq(row.project.as_str(), project));
    out.append(": status=");
    out.append(row.status.status.as_str());
    push_id_suffix(&mut out, &row.status.id_short);
    push_cpu_part(&mut out, row);
    push_memory_part(&mut out, row);
    push_storage_part(&mut out, row, with_storage);
    out.append("\n");
    out
}

fn render_stats(github_user: &str, project: &str, rows: &Vec<StatsRow>, with_storage: bool) -> (r:
    (u32, String))
    ensures
        r.0 == EXIT_OK,
        r.1@ == "agentman: sandbox stats for "@ + github_user@ + "\n"@ + stats_lines(
            rows@,
            project@,
            with_storage,
        ),
{
    let mut out = text3("agentman: sandbox stats for ", github_user, "\n");
    let ghost head = out@;
    let mut i: usize = 0;
    assert(rows@.take(0) =~= Seq::<StatsRow>::empty());
    assert(out@ =~= head + stats_lines(rows@.take(0), project@, with_storage));
    while i < rows.len()
        invariant
            i <= rows.len(),
            out@ == head + stats_lines(rows@.take(i as int), project@, with_storage),
        decreases rows.len() - i,
    {
        let row = &rows[i];
        proof {
            let t = rows@.take(i as int + 1);
            assert(t.drop_last() == rows@.take(i as int));
            assert(t.last() == *row);
        }
        let line = stats_line_text(row, project, with_storage);
        let ghost before = out@;
        out.append(line.as_str());
        assert(out@ =~= head + (stats_lines(rows@.take(i as int), project@, with_storage)
            + line@));
        i += 1;
    }
    assert(rows@.take(rows.len() as int) == rows@);
    (EXIT_OK, out)
}

/// The statistics of sandboxes, with the size of each workspace, and exit
/// status 0.
pub fn render_sandbox_stats(github_user: &str, project: &str, rows: &Vec<StatsRow>) -> (r: (
    u32,
    String,
))
    ensures
        r.0 == EXIT_OK,
        r.1@ == "agentman: sandbox stats for "@ + github_user@ + "\n"@ + stats_lines(
            rows@,
            project@,
            true,
        ),
{
    render_stats(github_user, project, rows, true)
}

/// The statistics of sandboxes as they are shown when watched: without the
/// sizes of the workspaces, which take long to measure.
pub fn render_sandbox_stats_fast(github_user: &str, project: &str, rows: &Vec<StatsRow>) -> (r: (
    u32,
    String,
))
    ensures
        r.0 == EXIT_OK,
        r.1@ == "agentman: sandbox stats for "@ + github_user@ + "\n"@ + stats_lines(
            rows@,
            project@,
            false,
        ),
{
    render_stats(github_user, project, rows, false)
}

/// What follows the inspection of a container that is to be stopped or
/// paused.
#[derive(Debug, Clone)]
pub enum LifecycleStep {
    /// The command ends with this exit status and output.
    Finished(u32, String),
    /// The container is to be stopped, with this grace in seconds.
    Stop { container_name: String, timeout_secs: u32 },
    /// The container is to be paused.
    Pause { container_name: String },
}

/// The line that says that a workspace's container is missing.
pub open spec fn container_missing_text(
    github_user: Seq<char>,
    project: Seq<char>,
    container_name: Seq<char>,
) -> Seq<char> {
    "agentman: container not found for "@ + github_user + "/"@ + project + " (expected name "@
        + container_name + ")\n"@
}

/// The line that says that a container could not be inspected.
pub open spec fn inspect_failed_text(container_name: Seq<char>, reason: Seq<char>) -> Seq<char> {
    "agentman: failed to inspect container "@ + container_name + ": "@ + reason + "\n"@
}

fn inspect_failure(github_user: &str, project: &str, ws: &WorkspaceInfo, inspect: &InspectOutcome) -> (r:
    Option<(u32, String)>)
    ensures
        match *inspect {
            InspectOutcome::Found(_) => r is None,
            InspectOutcome::NotFound => r matches Some((code, text)) && code == EXIT_FAILED
                && text@ == container_missing_text(github_user@, project@, ws.container_name@),
            InspectOutcome::Failed(m) => r matches Some((code, text)) && code == EXIT_FAILED
                && text@ == inspect_failed_text(ws.container_name@, m@),
        },
{
    match inspect {
        InspectOutcome::Found(_) => None,
        InspectOutcome::NotFound => {
            let mut out = text5(
                "agentman: container not found for ",
                github_user,
                "/",
                project,
                " (expected name ",
            );
            out.append(ws.container_name.as_str());
            out.append(")\n");
            Some((EXIT_FAILED, out))
        },
        InspectOutcome::Failed(m) => Some(
            (
                EXIT_FAILED,
                text5(
                    "agentman: failed to inspect container ",
                    ws.container_name.as_str(),
                    ": ",
                    m.as_str(),
                    "\n",
                ),
            ),
        ),
    }
}

/// The container of the current workspace has been inspected, to stop it:
/// one that does not run is left alone, with exit status 0; one that runs
/// is to be stopped; a missing one and a failed inspection end the command
/// with exit status 1.
pub fn stop_inspected(github_user: &str, project: &str, ws: &WorkspaceInfo, inspect: &InspectOutcome) -> (r:
    LifecycleStep)
    ensures
        match *inspect {
            InspectOutcome::Found(probe) => if probe.running == Some(true) {
                &&& r matches LifecycleStep::Stop { container_name, timeout_secs }
                &&& container_name@ == ws.container_name@
                &&& timeout_secs == crate::sandbox::STOP_TIMEOUT_SECS
            } else {
                &&& r matches LifecycleStep::Finished(code, text)
                &&& code == EXIT_OK
                &&& text@ == "agentman: sandbox "@ + project@ + " is already stopped\n"@
            },
            InspectOutcome::NotFound => r matches LifecycleStep::Finished(code, text) && code
                == EXIT_FAILED && text@ == container_missing_text(
                github_user@,
                project@,
                ws.container_name@,
            ),
            InspectOutcome::Failed(m) => r matches LifecycleStep::Finished(code, text) && code
                == EXIT_FAILED && text@ == inspect_failed_text(ws.container_name@, m@),
        },
{
    match inspect_failure(github_user, project, ws, inspect) {
        Some((code, text)) => LifecycleStep::Finished(code, text),
        None => match inspect {
            InspectOutcome::Found(probe) => {
                let running = match probe.running {
                    Some(b) => b,
                    None => false,
                };
                if !running {
                    LifecycleStep::Finished(
                        EXIT_OK,
                        text3("agentman: sandbox ", project, " is already stopped\n"),
                    )
                } else {
                    LifecycleStep::Stop {
                        container_name: ws.container_name.clone(),
                        timeout_secs: crate::sandbox::STOP_TIMEOUT_SECS,
                    }
                }
            },
            _ => LifecycleStep::Finished(EXIT_FAILED, String::new()),
        },
    }
}

/// What `stop` or `pause` prints after the engine was asked: `done` is the
/// word for what was done, `verb` the one for what was tried.
pub open spec fn lifecycle_text(
    done: Seq<char>,
    verb: Seq<char>,
    project: Seq<char>,
    container_name: Seq<char>,
    outcome: EngineOutcome,
) -> Seq<char> {
    match outcome {
        EngineOutcome::Done => "agentman: "@ + done + " sandbox "@ + project + " ("@
            + container_name + ")\n"@,
        EngineOutcome::NotFound => "agentman: container not found: "@ + container_name + "\n"@,
        EngineOutcome::Failed(m) => "agentman: "@ + verb + " failed: "@ + m@ + "\n"@,
    }
}

fn lifecycle_finished(done: &str, verb: &str, project: &str, ws: &WorkspaceInfo, outcome: &EngineOutcome) -> (r:
    (u32, String))
    ensures
        r.0 == (if *outcome is Done {
            EXIT_OK
        } else {
            EXIT_FAILED
        }),
        r.1@ == lifecycle_text(done@, verb@, project@, ws.container_name@, *outcome),
{
    match outcome {
        EngineOutcome::Done => {
            let mut out = text5("agentman: ", done, " sandbox ", project, " (");
            out.append(ws.container_name.as_str());
            out.append(")\n");
            (EXIT_OK, out)
        },
        EngineOutcome::NotFound => (
            EXIT_FAILED,
            text3("agentman: container not found: ", ws.container_name.as_str(), "\n"),
        ),
        EngineOutcome::Failed(m) => (
            EXIT_FAILED,
            text5("agentman: ", verb, " failed: ", m.as_str(), "\n"),
        ),
    }
}

/// What `stop` prints after the engine was asked to stop the container.
pub fn stop_finished(project: &str, ws: &WorkspaceInfo, outcome: &EngineOutcome) -> (r: (
    u32,
    String,
))
    ensures
        r.0 == (if *outcome is Done {
            EXIT_OK
        } else {
            EXIT_FAILED
        }),
        r.1@ == lifecycle_text("stopped"@, "stop"@, project@, ws.container_name@, *outcome),
{
    lifecycle_finished("stopped", "stop", project, ws, outcome)
}

/// The container of the current workspace has been inspected, to pause it:
/// one that does not run cannot be paused, which ends the command with exit
/// status 1; one that is paused is left alone, with exit status 0; any
/// other is to be paused.
pub fn pause_inspected(github_user: &str, project: &str, ws: &WorkspaceInfo, inspect: &InspectOutcome) -> (r:
    LifecycleStep)
    ensures
        match *inspect {
            InspectOutcome::Found(probe) => if probe.running != Some(true) {
                &&& r matches LifecycleStep::Finished(code, text)
                &&& code == EXIT_FAILED
                &&& text@ == "agentman: sandbox "@ + project@ + " is not running (cannot pause)\n"@
            } else if probe.paused == Some(true) {
                &&& r matches LifecycleStep::Finished(code, text)
                &&& code == EXIT_OK
                &&& text@ == "agentman: sandbox "@ + project@ + " is already paused\n"@
            } else {
                r matches LifecycleStep::Pause { container_name } && container_name@
                    == ws.container_name@
            },
            InspectOutcome::NotFound => r matches LifecycleStep::Finished(code, text) && code
                == EXIT_FAILED && text@ == container_missing_text(
                github_user@,
                project@,
                ws.container_name@,
            ),
            InspectOutcome::Failed(m) => r matches LifecycleStep::Finished(code, text) && code
                == EXIT_FAILED && text@ == inspect_failed_text(ws.container_name@, m@),
        },
{
    match inspect_failure(github_user, project, ws, inspect) {
        Some((code, text)) => LifecycleStep::Finished(code, text),
        None => match inspect {
            InspectOutcome::Found(probe) => {
                let running = match probe.running {
                    Some(b) => b,
                    None => false,
                };
                let paused = match probe.paused {
                    Some(b) => b,
                    None => false,
                };
                if !running {
                    LifecycleStep::Finished(
                        EXIT_FAILED,
                        text3("agentman: sandbox ", project, " is not running (cannot pause)\n"),
                    )
                } else if paused {
                    LifecycleStep::Finished(
                        EXIT_OK,
                        text3("agentman: sandbox ", project, " is already paused\n"),
                    )
                } else {
                    LifecycleStep::Pause { container_name: ws.container_name.clone() }
                }
            },
            _ => LifecycleStep::Finished(EXIT_FAILED, String::new()),
        },
    }
}

/// What `pause` prints after the engine was asked to pause the container.
pub fn pause_finished(project: &str, ws: &WorkspaceInfo, outcome: &EngineOutcome) -> (r: (
    u32,
    String,
))
    ensures
        r.0 == (if *outcome is Done {
            EXIT_OK
        } else {
            EXIT_FAILED
        }),
        r.1@ == lifecycle_text("paused"@, "pause"@, project@, ws.container_name@, *outcome),
{
    lifecycle_finished("paused", "pause", project, ws, outcome)
}

} // verus!
