//! The bridge between a process in the sandbox and an SSH channel: the
//! process's command and environment, where each piece of its output goes,
//! and how the channel is closed when it ends.

use vstd::prelude::*;
use vstd::string::{StrSliceExecFns, StringExecFns, StringSliceAdditionalSpecFns};
use vstd::utf8::encode_utf8;
use crate::config::ShellMode;
use crate::session::ChannelStreamKind;
use crate::text::{ascii_alnum, chars_of, decimal, decimal_string, is_ascii_alnum, push_char, views};

verus! {

pub const DEFAULT_TERM: &'static str = "xterm-256color";

pub const SHELL_PATH: &'static str = "/bin/bash";

/// The directory in which every process of a sandbox starts.
pub const WORKING_DIR: &'static str = "/workspace";

/// The code of the error stream among an SSH channel's extended data.
pub const EXTENDED_DATA_STDERR: u32 = 1;

/// The exit status reported where the process's own is negative or cannot
/// be had.
pub const EXIT_STATUS_UNKNOWN: u32 = 255;

/// How often the engine is asked for the exit code of a process whose
/// output has ended.
pub const EXIT_POLL_ATTEMPTS: u32 = 80;

/// The pause between two such questions, in milliseconds.
pub const EXIT_POLL_INTERVAL_MS: u64 = 25;

/// The capacity of the queue of input from the client to the process.
pub const STDIN_QUEUE_CAPACITY: usize = 32;

/// The environment of a process: the shell, and the terminal type where it
/// has a terminal, the home directory where it has none.
pub open spec fn exec_env_spec(tty: bool, term: Seq<char>) -> Seq<Seq<char>> {
    if tty {
        seq!["SHELL=/bin/bash"@, "TERM="@ + term]
    } else {
        seq!["SHELL=/bin/bash"@, "HOME=/workspace"@]
    }
}

/// The environment of a process in the sandbox.
pub fn exec_env(tty: bool, term: &str) -> (r: Vec<String>)
    ensures
        views(r@) == exec_env_spec(tty, term@),
{
    let mut env: Vec<String> = Vec::new();
    env.push(String::from_str("SHELL=/bin/bash"));
    if tty {
        let mut t = String::from_str("TERM=");
        t.append(term);
        env.push(t);
    } else {
        env.push(String::from_str("HOME=/workspace"));
    }
    assert(views(env@) =~= exec_env_spec(tty, term@));
    env
}

/// A character that may stand in the name of a multiplexer session.
pub open spec fn is_session_char(c: char) -> bool {
    is_ascii_alnum(c) || c == '-' || c == '_'
}

/// The name with each character that may not stand in it replaced by `_`.
pub open spec fn replace_unsafe(name: Seq<char>) -> Seq<char> {
    Seq::new(
        name.len(),
        |i: int|
            if is_session_char(name[i]) {
                name[i]
            } else {
                '_'
            },
    )
}

/// A safe name for a multiplexer session: the given one with unsafe
/// characters replaced, or `agentman` where it is empty.
pub open spec fn sanitized_session_name(name: Seq<char>) -> Seq<char> {
    if name.len() == 0 {
        "agentman"@
    } else {
        replace_unsafe(name)
    }
}

/// Makes a name safe for use as a multiplexer session's name.
pub fn sanitize_tmux_session_name(name: &str) -> (r: String)
    ensures
        r@ == sanitized_session_name(name@),
{
    let v = chars_of(name);
    if v.len() == 0 {
        return String::from_str("agentman");
    }
    let mut out = String::new();
    let mut i: usize = 0;
    while i < v.len()
        invariant
            i <= v.len(),
            v@ == name@,
            out@ == replace_unsafe(name@).take(i as int),
        decreases v.len() - i,
    {
        let c = v[i];
        if ascii_alnum(c) || c == '-' || c == '_' {
            push_char(&mut out, c);
        } else {
            push_char(&mut out, '_');
        }
        i += 1;
        assert(replace_unsafe(name@).take(i as int) == replace_unsafe(name@).take(i as int - 1).push(
            replace_unsafe(name@)[i as int - 1],
        ));
    }
    assert(replace_unsafe(name@).take(v.len() as int) == replace_unsafe(name@));
    out
}

/// The shell script that attaches to the multiplexer session `session`, or
/// creates it, and falls back to a login shell without a multiplexer.
pub open spec fn tmux_script(session: Seq<char>) -> Seq<char> {
    "if command -v tmux >/dev/null 2>&1; then exec tmux new-session -A -s '"@ + session
        + "' -c /workspace /bin/bash -l; else exec /bin/bash -l; fi"@
}

/// The command of a shell request: a login shell, or the multiplexer where
/// that is configured and the client has a terminal.
pub open spec fn shell_argv(mode: ShellMode, tty: bool, tmux_session: Seq<char>) -> Seq<Seq<char>> {
    if mode == ShellMode::Tmux && tty {
        seq!["/bin/bash"@, "-lc"@, tmux_script(sanitized_session_name(tmux_session))]
    } else {
        seq!["/bin/bash"@, "-l"@]
    }
}

/// The command of a shell request.
pub fn shell_command(mode: ShellMode, tty: bool, tmux_session: &str) -> (r: Vec<String>)
    ensures
        views(r@) == shell_argv(mode, tty, tmux_session@),
{
    let mut cmd: Vec<String> = Vec::new();
    cmd.push(String::from_str("/bin/bash"));
    let tmux = match mode {
        ShellMode::Tmux => tty,
        ShellMode::Bash => false,
    };
    if tmux {
        cmd.push(String::from_str("-lc"));
        let name = sanitize_tmux_session_name(tmux_session);
        let mut script = String::from_str(
            "if command -v tmux >/dev/null 2>&1; then exec tmux new-session -A -s '",
        );
        script.append(name.as_str());
        script.append("' -c /workspace /bin/bash -l; else exec /bin/bash -l; fi");
        cmd.push(script);
    } else {
        cmd.push(String::from_str("-l"));
    }
    assert(views(cmd@) =~= shell_argv(mode, tty, tmux_session@));
    cmd
}

/// The command of an exec request: the payload handed to the shell, which
/// is no login shell.
pub open spec fn exec_argv(command: Seq<char>) -> Seq<Seq<char>> {
    seq!["/bin/bash"@, "-c"@, command]
}

/// The command of an exec request.
pub fn exec_command(command: &str) -> (r: Vec<String>)
    ensures
        views(r@) == exec_argv(command@),
{
    let mut cmd: Vec<String> = Vec::new();
    cmd.push(String::from_str("/bin/bash"));
    cmd.push(String::from_str("-c"));
    cmd.push(String::from_str(command));
    assert(views(cmd@) =~= exec_argv(command@));
    cmd
}

/// The command that connects a forwarded channel to `host:port` from inside
/// the sandbox.
pub open spec fn forward_argv(host: Seq<char>, port: u32) -> Seq<Seq<char>> {
    seq!["socat"@, "-"@, "TCP:"@ + host + ":"@ + decimal(port as nat)]
}

/// The command that serves a forwarded channel.
pub fn forward_command(host: &str, port: u32) -> (r: Vec<String>)
    ensures
        views(r@) == forward_argv(host@, port),
{
    let mut cmd: Vec<String> = Vec::new();
    cmd.push(String::from_str("socat"));
    cmd.push(String::from_str("-"));
    let mut target = String::from_str("TCP:");
    target.append(host);
    target.append(":");
    let digits = decimal_string(port as u64);
    target.append(digits.as_str());
    cmd.push(target);
    assert(views(cmd@) =~= forward_argv(host@, port));
    cmd
}

/// Where a piece of a process's output comes from.
#[derive(Debug, Clone, Copy, PartialEq, Eq, Structural)]
pub enum StreamOrigin {
    StdIn,
    StdOut,
    StdErr,
    Console,
}

/// Where a piece of output goes.
#[derive(Debug, Clone, Copy, PartialEq, Eq, Structural)]
pub enum OutputRoute {
    /// To the channel as data.
    Data,
    /// To the channel as extended data with this code.
    ExtendedData(u32),
    /// Nowhere: it is logged and left out of the channel.
    Dropped,
}

/// The route of a piece of output: the error stream of a session goes out
/// as extended data, that of a forwarded connection is left out, since it
/// would corrupt the byte stream; everything else is data.
pub open spec fn route_of(kind: ChannelStreamKind, origin: StreamOrigin) -> OutputRoute {
    match origin {
        StreamOrigin::StdErr => match kind {
            ChannelStreamKind::Session => OutputRoute::ExtendedData(EXTENDED_DATA_STDERR),
            ChannelStreamKind::TcpForward => OutputRoute::Dropped,
        },
        _ => OutputRoute::Data,
    }
}

/// Decides where a piece of a process's output goes.
pub fn route_output(kind: ChannelStreamKind, origin: StreamOrigin) -> (r: OutputRoute)
    ensures
        r == route_of(kind, origin),
{
    match origin {
        StreamOrigin::StdErr => match kind {
            ChannelStreamKind::Session => OutputRoute::ExtendedData(EXTENDED_DATA_STDERR),
            ChannelStreamKind::TcpForward => OutputRoute::Dropped,
        },
        _ => OutputRoute::Data,
    }
}

/// What the engine says of a process whose output has ended.
#[derive(Debug, Clone, Copy, PartialEq, Eq, Structural)]
pub enum ExecProbe {
    /// It still counts as running.
    Running,
    /// It has ended, with this exit code if the engine knows one.
    Exited(Option<i64>),
    /// The engine could not be asked.
    Failed,
}

/// What to do after a probe.
#[derive(Debug, Clone, Copy, PartialEq, Eq, Structural)]
pub enum PollStep {
    /// Pause for this many milliseconds, then probe again.
    Wait(u64),
    /// Report this exit status.
    Report(u32),
}

/// The exit status that stands for an exit code: the code itself, or 255
/// where it is negative or does not fit.
pub open spec fn status_of_code(code: i64) -> u32 {
    if 0 <= code <= u32::MAX {
        code as u32
    } else if code < 0 {
        EXIT_STATUS_UNKNOWN
    } else {
        (code % 0x1_0000_0000) as u32
    }
}

/// What follows the probe number `attempt`, counted from 0: a process that
/// still runs is probed again after a pause, up to 80 probes in all; one
/// that has ended has its code reported, 0 where the engine knows none;
/// where the engine fails or the probes are used up, 255 is reported.
pub open spec fn poll_outcome(attempt: u32, probe: ExecProbe) -> PollStep {
    match probe {
        ExecProbe::Running => if attempt + 1 < EXIT_POLL_ATTEMPTS {
            PollStep::Wait(EXIT_POLL_INTERVAL_MS)
        } else {
            PollStep::Report(EXIT_STATUS_UNKNOWN)
        },
        ExecProbe::Exited(None) => PollStep::Report(0),
        ExecProbe::Exited(Some(code)) => PollStep::Report(status_of_code(code)),
        ExecProbe::Failed => PollStep::Report(EXIT_STATUS_UNKNOWN),
    }
}

/// Decides what follows a probe for the exit code.
pub fn exit_poll_step(attempt: u32, probe: ExecProbe) -> (r: PollStep)
    ensures
        r == poll_outcome(attempt, probe),
{
    match probe {
        ExecProbe::Running => {
            if attempt < EXIT_POLL_ATTEMPTS - 1 {
                PollStep::Wait(EXIT_POLL_INTERVAL_MS)
            } else {
                PollStep::Report(EXIT_STATUS_UNKNOWN)
            }
        },
        ExecProbe::Exited(None) => PollStep::Report(0),
        ExecProbe::Exited(Some(code)) => {
            if code < 0 {
                PollStep::Report(EXIT_STATUS_UNKNOWN)
            } else if code <= 0xffff_ffff {
                PollStep::Report(code as u32)
            } else {
                PollStep::Report((code % 0x1_0000_0000) as u32)
            }
        },
        ExecProbe::Failed => PollStep::Report(EXIT_STATUS_UNKNOWN),
    }
}

/// Something sent to the client on a channel.
#[derive(Debug, Clone, PartialEq, Eq)]
pub enum ChannelAction {
    /// The request is acknowledged.
    Success,
    Data(Vec<u8>),
    ExtendedData { code: u32, data: Vec<u8> },
    ExitStatus(u32),
    Eof,
    Close,
}

/// A channel action with its bytes as a sequence.
pub enum ActionView {
    Success,
    Data(Seq<u8>),
    ExtendedData(u32, Seq<u8>),
    ExitStatus(u32),
    Eof,
    Close,
}

impl View for ChannelAction {
    type V = ActionView;

    open spec fn view(&self) -> ActionView {
        match *self {
            ChannelAction::Success => ActionView::Success,
            ChannelAction::Data(d) => ActionView::Data(d@),
            ChannelAction::ExtendedData { code, data } => ActionView::ExtendedData(code, data@),
            ChannelAction::ExitStatus(s) => ActionView::ExitStatus(s),
            ChannelAction::Eof => ActionView::Eof,
            ChannelAction::Close => ActionView::Close,
        }
    }
}

/// The views of a list of actions.
pub open spec fn action_views(v: Seq<ChannelAction>) -> Seq<ActionView> {
    v.map_values(|a: ChannelAction| a@)
}

/// How a channel ends when its process has ended: a session reports the
/// exit status, then every kind sends end-of-file and closes.
pub open spec fn closing_views(kind: ChannelStreamKind, exit_status: u32) -> Seq<ActionView> {
    match kind {
        ChannelStreamKind::Session => seq![
            ActionView::ExitStatus(exit_status),
            ActionView::Eof,
            ActionView::Close,
        ],
        ChannelStreamKind::TcpForward => seq![ActionView::Eof, ActionView::Close],
    }
}

/// The actions that end a channel whose process has ended.
pub fn closing_actions(kind: ChannelStreamKind, exit_status: u32) -> (r: Vec<ChannelAction>)
    ensures
        action_views(r@) == closing_views(kind, exit_status),
{
    let mut out: Vec<ChannelAction> = Vec::new();
    match kind {
        ChannelStreamKind::Session => {
            out.push(ChannelAction::ExitStatus(exit_status));
        },
        ChannelStreamKind::TcpForward => {},
    }
    out.push(ChannelAction::Eof);
    out.push(ChannelAction::Close);
    assert(action_views(out@) =~= closing_views(kind, exit_status));
    out
}

/// A piece of a process's output.
#[derive(Debug, Clone)]
pub struct OutputFrame {
    pub origin: StreamOrigin,
    pub data: Vec<u8>,
}

/// What the client sees of the given pieces of output, in order.
pub open spec fn relayed_views(kind: ChannelStreamKind, frames: Seq<OutputFrame>) -> Seq<ActionView>
    decreases frames.len(),
{
    if frames.len() == 0 {
        Seq::empty()
    } else {
        let head = relayed_views(kind, frames.drop_last());
        let f = frames.last();
        match route_of(kind, f.origin) {
            OutputRoute::Data => head.push(ActionView::Data(f.data@)),
            OutputRoute::ExtendedData(code) => head.push(ActionView::ExtendedData(code, f.data@)),
            OutputRoute::Dropped => head,
        }
    }
}

/// What the client sees of a process that wrote the given output and then
/// ended: the output, then the channel's ending.
pub open spec fn transcript_views(
    kind: ChannelStreamKind,
    frames: Seq<OutputFrame>,
    exit_status: u32,
) -> Seq<ActionView> {
    relayed_views(kind, frames) + closing_views(kind, exit_status)
}

/// Everything sent to the client for a process that wrote `frames` and
/// then ended with `exit_status`.
pub fn bridge_transcript(kind: ChannelStreamKind, frames: &Vec<OutputFrame>, exit_status: u32) -> (r:
    Vec<ChannelAction>)
    ensures
        action_views(r@) == transcript_views(kind, frames@, exit_status),
{
    let mut out: Vec<ChannelAction> = Vec::new();
    let mut i: usize = 0;
    assert(frames@.take(0) =~= Seq::<OutputFrame>::empty());
    assert(action_views(out@) =~= relayed_views(kind, frames@.take(0)));
    while i < frames.len()
        invariant
            i <= frames.len(),
            action_views(out@) == relayed_views(kind, frames@.take(i as int)),
        decreases frames.len() - i,
    {
        let f = &frames[i];
        let ghost before = out@;
        proof {
            let t = frames@.take(i as int + 1);
            assert(t.drop_last() == frames@.take(i as int));
            assert(t.last() == *f);
        }
        match route_output(kind, f.origin) {
            OutputRoute::Data => {
                let a = ChannelAction::Data(f.data.clone());
                out.push(a);
                assert(action_views(out@) =~= action_views(before).push(a@));
            },
            OutputRoute::ExtendedData(code) => {
                let a = ChannelAction::ExtendedData { code, data: f.data.clone() };
                out.push(a);
                assert(action_views(out@) =~= action_views(before).push(a@));
            },
            OutputRoute::Dropped => {},
        }
        i += 1;
    }
    assert(frames@.take(frames.len() as int) == frames@);
    let mut tail = closing_actions(kind, exit_status);
    let ghost head = out@;
    let ghost rest = tail@;
    out.append(&mut tail);
    assert(action_views(out@) =~= action_views(head) + action_views(rest));
    out
}

/// What answers a control command: the acknowledgement, the output if
/// there is any, the exit status, end-of-file, and the close.
pub open spec fn control_reply_views(exit_status: u32, output: Seq<u8>) -> Seq<ActionView> {
    let head = if output.len() > 0 {
        seq![ActionView::Success, ActionView::Data(output)]
    } else {
        seq![ActionView::Success]
    };
    head + seq![ActionView::ExitStatus(exit_status), ActionView::Eof, ActionView::Close]
}

/// The actions that answer a control command.
pub fn control_reply_actions(exit_status: u32, output: &str) -> (r: Vec<ChannelAction>)
    ensures
        action_views(r@) == control_reply_views(exit_status, encode_utf8(output@)),
{
    let mut out: Vec<ChannelAction> = Vec::new();
    out.push(ChannelAction::Success);
    let bytes = output.as_bytes_vec();
    if bytes.len() > 0 {
        out.push(ChannelAction::Data(bytes));
    }
    out.push(ChannelAction::ExitStatus(exit_status));
    out.push(ChannelAction::Eof);
    out.push(ChannelAction::Close);
    assert(action_views(out@) =~= control_reply_views(exit_status, encode_utf8(output@)));
    out
}

/// What a client sees when no sandbox could be had for its channel: a line
/// on the error stream, the exit status 255, end-of-file, and the close.
pub open spec fn provision_failure_views(line: Seq<u8>) -> Seq<ActionView> {
    seq![
        ActionView::ExtendedData(EXTENDED_DATA_STDERR, line),
        ActionView::ExitStatus(EXIT_STATUS_UNKNOWN),
        ActionView::Eof,
        ActionView::Close,
    ]
}

/// The actions that tell a client that no sandbox could be had.
pub fn provision_failure_actions(message: &str) -> (r: Vec<ChannelAction>)
    ensures
        action_views(r@) == provision_failure_views(encode_utf8(message@ + "\n"@)),
{
    let mut line = String::from_str(message);
    line.append("\n");
    let bytes = line.as_str().as_bytes_vec();
    let mut out: Vec<ChannelAction> = Vec::new();
    out.push(ChannelAction::ExtendedData { code: EXTENDED_DATA_STDERR, data: bytes });
    out.push(ChannelAction::ExitStatus(EXIT_STATUS_UNKNOWN));
    out.push(ChannelAction::Eof);
    out.push(ChannelAction::Close);
    assert(action_views(out@) =~= provision_failure_views(encode_utf8(message@ + "\n"@)));
    out
}

} // verus!

verus! {

/// The bytes that the given actions carry as data, in order.
pub open spec fn data_bytes(actions: Seq<ActionView>) -> Seq<u8>
    decreases actions.len(),
{
    if actions.len() == 0 {
        Seq::empty()
    } else {
        let head = data_bytes(actions.drop_last());
        match actions.last() {
            ActionView::Data(d) => head + d,
            _ => head,
        }
    }
}

/// The bytes that a process wrote anywhere but to its error stream, in
/// order.
pub open spec fn written_bytes(frames: Seq<OutputFrame>) -> Seq<u8>
    decreases frames.len(),
{
    if frames.len() == 0 {
        Seq::empty()
    } else {
        let head = written_bytes(frames.drop_last());
        if frames.last().origin == StreamOrigin::StdErr {
            head
        } else {
            head + frames.last().data@
        }
    }
}

/// No action reports an exit status.
pub open spec fn without_exit_status(actions: Seq<ActionView>) -> bool {
    forall|i: int| 0 <= i < actions.len() ==> !(#[trigger] actions[i] is ExitStatus)
}

/// What is relayed of a process's output is data and extended data only,
/// and the data is what the process wrote, byte for byte and in order.
pub proof fn lemma_relay_keeps_bytes(kind: ChannelStreamKind, frames: Seq<OutputFrame>)
    ensures
        data_bytes(relayed_views(kind, frames)) == written_bytes(frames),
        forall|i: int|
            0 <= i < relayed_views(kind, frames).len() ==> (#[trigger] relayed_views(
                kind,
                frames,
            )[i] is Data || relayed_views(kind, frames)[i] is ExtendedData),
    decreases frames.len(),
{
    if frames.len() > 0 {
        lemma_relay_keeps_bytes(kind, frames.drop_last());
        let head = relayed_views(kind, frames.drop_last());
        let f = frames.last();
        match route_of(kind, f.origin) {
            OutputRoute::Data => {
                assert(head.push(ActionView::Data(f.data@)).drop_last() == head);
            },
            OutputRoute::ExtendedData(code) => {
                assert(head.push(ActionView::ExtendedData(code, f.data@)).drop_last() == head);
            },
            OutputRoute::Dropped => {},
        }
    }
}

/// On a session channel the client sees the process's output, then the
/// exit status, then end-of-file, then the close, and nothing else: the
/// exit status comes after the last byte of output and before the channel
/// ends.
pub proof fn lemma_session_ends_in_order(frames: Seq<OutputFrame>, exit_status: u32)
    ensures
        ({
            let t = transcript_views(ChannelStreamKind::Session, frames, exit_status);
            let n = relayed_views(ChannelStreamKind::Session, frames).len() as int;
            &&& t.len() == n + 3
            &&& t.take(n) == relayed_views(ChannelStreamKind::Session, frames)
            &&& without_exit_status(t.take(n))
            &&& data_bytes(t.take(n)) == written_bytes(frames)
            &&& t[n] == ActionView::ExitStatus(exit_status)
            &&& t[n + 1] == ActionView::Eof
            &&& t[n + 2] == ActionView::Close
        }),
{
    lemma_relay_keeps_bytes(ChannelStreamKind::Session, frames);
    let r = relayed_views(ChannelStreamKind::Session, frames);
    let t = transcript_views(ChannelStreamKind::Session, frames, exit_status);
    assert(t.take(r.len() as int) =~= r);
}

/// On a forwarded connection the client never sees an exit status: it sees
/// the bytes that the process wrote, then end-of-file and the close.
pub proof fn lemma_forward_reports_no_exit_status(frames: Seq<OutputFrame>, exit_status: u32)
    ensures
        without_exit_status(transcript_views(ChannelStreamKind::TcpForward, frames, exit_status)),
        ({
            let t = transcript_views(ChannelStreamKind::TcpForward, frames, exit_status);
            let n = relayed_views(ChannelStreamKind::TcpForward, frames).len() as int;
            &&& t.len() == n + 2
            &&& data_bytes(t.take(n)) == written_bytes(frames)
            &&& t[n] == ActionView::Eof
            &&& t[n + 1] == ActionView::Close
        }),
{
    lemma_relay_keeps_bytes(ChannelStreamKind::TcpForward, frames);
    let r = relayed_views(ChannelStreamKind::TcpForward, frames);
    let t = transcript_views(ChannelStreamKind::TcpForward, frames, exit_status);
    assert(t.take(r.len() as int) =~= r);
    assert forall|i: int| 0 <= i < t.len() implies !(#[trigger] t[i] is ExitStatus) by {
        if i < r.len() {
            assert(t[i] == r[i]);
        }
    }
}

/// The answer to a control command carries its output before the exit
/// status, and end-of-file and the close after it.
pub proof fn lemma_control_output_precedes_status(exit_status: u32, output: Seq<u8>)
    ensures
        ({
            let t = control_reply_views(exit_status, output);
            let n = t.len() as int;
            &&& t[n - 3] == ActionView::ExitStatus(exit_status)
            &&& t[n - 2] == ActionView::Eof
            &&& t[n - 1] == ActionView::Close
            &&& output.len() > 0 ==> n == 5 && t[1] == ActionView::Data(output)
            &&& without_exit_status(t.take(n - 3))
        }),
{
}

} // verus!
