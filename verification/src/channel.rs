//! The channels of a connection: terminals, processes and forwards.

use vstd::prelude::*;
use vstd::std_specs::hash::group_hash_axioms;
use vstd::string::StringExecFns;
use crate::bridge::{
    exec_argv, exec_command, exec_env, exec_env_spec, forward_argv, forward_command, shell_argv,
    shell_command, DEFAULT_TERM,
};
use crate::config::{PortForwardingConfig, ShellConfig};
use crate::control::{parse_control_words, parse_gateway_control_command, GatewayControlCommand};
use crate::session::{ChannelStreamKind, ConnectionHandler, ExecSession, ForwardKey, PtyInfo};
use crate::table::{
    distinct_keys, lemma_table_absent, lemma_table_at, lemma_table_push, lemma_table_remove,
    lemma_table_update, table,
};
use crate::text::{opt_view, str_eq, views, words};

verus! {

broadcast use group_hash_axioms;

/// Why a channel request cannot be served.
#[derive(Debug, Clone, Copy, PartialEq, Eq, Structural)]
pub enum SessionError {
    /// The client is not authenticated.
    NotAuthenticated,
    /// The client has named no project.
    NoProject,
}

/// The sandbox that a channel needs: that of this identity and project.
#[derive(Debug, Clone)]
pub struct ProvisionRequest {
    pub github_user: String,
    pub project: String,
}

/// A process to be created in a sandbox and bound to a channel.
#[derive(Debug, Clone)]
pub struct ExecPlan {
    pub container_id: String,
    pub cmd: Vec<String>,
    pub tty: bool,
    pub env: Option<Vec<String>>,
    pub kind: ChannelStreamKind,
}

/// A new size for the terminal of a process.
#[derive(Debug, Clone)]
pub struct ResizeRequest {
    pub exec_id: String,
    pub width: u16,
    pub height: u16,
}

/// What an exec request leads to.
#[derive(Debug, Clone)]
pub enum ExecStep {
    /// The payload is an administrative command, which the gateway runs
    /// itself.
    Control(GatewayControlCommand),
    /// The payload is a command for the sandbox, which is to be provided.
    Provision(ProvisionRequest),
}

/// What a request for a forwarded connection into the sandbox leads to.
#[derive(Debug, Clone)]
pub enum DirectStep {
    /// The request is refused.
    Refuse,
    /// The sandbox is to be provided; the connection then goes to
    /// `dest_host`.
    Provision { request: ProvisionRequest, dest_host: String },
    /// The process that serves the connection is to be started.
    Spawn(ExecPlan),
}

/// A listener to be bound for a remote forward.
#[derive(Debug, Clone)]
pub struct BindRequest {
    pub bind_addr: String,
    pub port: u32,
}

/// What became of binding a listener.
#[derive(Debug, Clone, Copy, PartialEq, Eq, Structural)]
pub enum BindOutcome {
    /// The address could not be bound.
    Failed,
    /// The listener is bound; its port is given where the system tells it.
    Bound(Option<u16>),
}

/// A forward's key.
pub open spec fn forward_key() -> spec_fn(ForwardKey) -> (Seq<char>, u32) {
    |f: ForwardKey| (f.address@, f.port)
}

pub const LOOPBACK: &'static str = "127.0.0.1";

pub const ANY_ADDRESS: &'static str = "0.0.0.0";

/// The names under which a client means the far end itself.
pub open spec fn is_local_name(host: Seq<char>) -> bool {
    host == "localhost"@ || host == "127.0.0.1"@ || host == "::1"@ || host == "[::1]"@ || host
        == "0.0.0.0"@
}

/// Whether a host name means the far end itself.
pub fn is_localhost(host: &str) -> (r: bool)
    ensures
        r == is_local_name(host@),
{
    str_eq(host, "localhost") || str_eq(host, "127.0.0.1") || str_eq(host, "::1") || str_eq(
        host,
        "[::1]",
    ) || str_eq(host, "0.0.0.0")
}

/// An address that asks for every interface.
pub open spec fn is_wildcard(address: Seq<char>) -> bool {
    address.len() == 0 || address == "0.0.0.0"@ || address == "*"@
}

/// The address on which the listener of a remote forward is bound: without
/// leave to bind other interfaces it is loopback; with it, a wildcard is
/// every interface, a local name is loopback, and any other address is
/// itself.
pub open spec fn bind_address(allow_gateway_ports: bool, address: Seq<char>) -> Seq<char> {
    if !allow_gateway_ports {
        LOOPBACK@
    } else if is_wildcard(address) {
        ANY_ADDRESS@
    } else if is_local_name(address) {
        LOOPBACK@
    } else {
        address
    }
}

/// The destination of a forwarded connection into the sandbox, if the
/// policy admits it: a local name means the sandbox's loopback; any other
/// host must be allowed.
pub open spec fn local_destination(policy: PortForwardingConfig, host: Seq<char>) -> Option<
    Seq<char>,
> {
    if !policy.allow_local {
        None
    } else if is_local_name(host) {
        Some(LOOPBACK@)
    } else if policy.allow_nonlocal_destinations {
        Some(host)
    } else {
        None
    }
}

/// The width or height that a request's 32-bit number stands for.
pub open spec fn dimension(n: u32) -> u16 {
    (n % 0x1_0000) as u16
}

fn dimension_of(n: u32) -> (r: u16)
    ensures
        r == dimension(n),
{
    (n % 0x1_0000) as u16
}

impl ConnectionHandler {
    /// No forward is kept twice.
    pub open spec fn tables_ok(self) -> bool {
        distinct_keys(self.remote_forwards@, forward_key())
    }

    /// The terminals, by channel.
    pub open spec fn pty_map(self) -> Map<u32, PtyInfo> {
        self.ptys@
    }

    /// The processes, by channel.
    pub open spec fn exec_map(self) -> Map<u32, ExecSession> {
        self.exec_sessions@
    }

    /// The remote forwards, by address and port.
    pub open spec fn forward_map(self) -> Map<(Seq<char>, u32), ForwardKey> {
        table(self.remote_forwards@, forward_key())
    }

    /// The identity, the project and the authentication state are the same
    /// in `self` and `other`.
    pub open spec fn same_login(self, other: Self) -> bool {
        &&& self.github_user == other.github_user
        &&& self.project == other.project
        &&& self.pending_github_user == other.pending_github_user
        &&& self.offered_key_fingerprints == other.offered_key_fingerprints
    }

    /// The terminal type of a channel: that of its terminal, or the default
    /// where it has none.
    pub open spec fn term_of(self, channel: u32) -> Seq<char> {
        if self.pty_map().dom().contains(channel) {
            self.pty_map()[channel].term@
        } else {
            DEFAULT_TERM@
        }
    }

    fn find_forward(&self, address: &str, port: u32) -> (r: Option<usize>)
        ensures
            match r {
                Some(i) => i < self.remote_forwards.len() && forward_key()(
                    self.remote_forwards@[i as int],
                ) == (address@, port),
                None => forall|j: int|
                    0 <= j < self.remote_forwards.len() ==> forward_key()(
                        #[trigger] self.remote_forwards@[j],
                    ) != (address@, port),
            },
    {
        let mut i: usize = 0;
        while i < self.remote_forwards.len()
            invariant
                i <= self.remote_forwards.len(),
                forall|j: int|
                    0 <= j < i ==> forward_key()(#[trigger] self.remote_forwards@[j]) != (
                        address@,
                        port,
                    ),
            decreases self.remote_forwards.len() - i,
        {
            let f = &self.remote_forwards[i];
            if f.port == port && str_eq(f.address.as_str(), address) {
                return Some(i);
            }
            i += 1;
        }
        None
    }

    /// A client opens a session channel: it may.
    pub fn channel_open_session(&self) -> (r: bool)
        ensures
            r,
    {
        true
    }

    /// A client asks for a terminal on a channel. The terminal is noted,
    /// with the default type where the client names none; the request is
    /// to be acknowledged.
    pub fn pty_request(&mut self, channel: u32, term: &str, cols: u32, rows: u32)
        requires
            old(self).tables_ok(),
        ensures
            final(self).tables_ok(),
            final(self).same_login(*old(self)),
            final(self).container_id == old(self).container_id,
            final(self).exec_sessions == old(self).exec_sessions,
            final(self).remote_forwards == old(self).remote_forwards,
            final(self).pty_map().dom().contains(channel),
            final(self).pty_map() == old(self).pty_map().insert(
                channel,
                final(self).pty_map()[channel],
            ),
            ({
                let e = final(self).pty_map()[channel];
                &&& e.term@ == (if term@.len() == 0 {
                    DEFAULT_TERM@
                } else {
                    term@
                })
                &&& e.cols == cols
                &&& e.rows == rows
            }),
    {
        let t = if term.unicode_len() == 0 {
            DEFAULT_TERM.to_owned()
        } else {
            String::from_str(term)
        };
        self.ptys.insert(channel, PtyInfo { term: t, cols, rows });
    }

    /// The sandbox that the connection's channels run in.
    pub fn session_target(&self) -> (r: Result<ProvisionRequest, SessionError>)
        ensures
            match r {
                Ok(t) => opt_view(self.github_user) == Some(t.github_user@) && opt_view(
                    self.project,
                ) == Some(t.project@),
                Err(SessionError::NotAuthenticated) => self.github_user is None,
                Err(SessionError::NoProject) => self.github_user is Some && self.project is None,
            },
    {
        match &self.github_user {
            None => Err(SessionError::NotAuthenticated),
            Some(u) => match &self.project {
                None => Err(SessionError::NoProject),
                Some(p) => Ok(ProvisionRequest { github_user: u.clone(), project: p.clone() }),
            },
        }
    }

    /// A client asks for a shell on a channel: the sandbox of its identity
    /// and project is to be provided. A shell request never runs an
    /// administrative command.
    pub fn shell_request(&self, channel: u32) -> (r: Result<ProvisionRequest, SessionError>)
        ensures
            match r {
                Ok(t) => opt_view(self.github_user) == Some(t.github_user@) && opt_view(
                    self.project,
                ) == Some(t.project@),
                Err(SessionError::NotAuthenticated) => self.github_user is None,
                Err(SessionError::NoProject) => self.github_user is Some && self.project is None,
            },
    {
        self.session_target()
    }

    /// The sandbox for a shell request is there. The connection is bound to
    /// it; the shell runs with a terminal exactly if the channel has one.
    pub fn shell_provisioned(&mut self, channel: u32, container_id: String, shell: &ShellConfig) -> (r:
        ExecPlan)
        requires
            old(self).tables_ok(),
        ensures
            final(self).same_login(*old(self)),
            final(self).ptys == old(self).ptys,
            final(self).exec_sessions == old(self).exec_sessions,
            final(self).remote_forwards == old(self).remote_forwards,
            final(self).container_id == Some(container_id),
            r.container_id == container_id,
            r.tty == old(self).pty_map().dom().contains(channel),
            views(r.cmd@) == shell_argv(shell.mode, r.tty, shell.tmux_session@),
            r.env matches Some(env) && views(env@) == exec_env_spec(
                r.tty,
                old(self).term_of(channel),
            ),
            r.kind == ChannelStreamKind::Session,
    {
        let (tty, env) = self.channel_env(channel);
        let cmd = shell_command(shell.mode, tty, shell.tmux_session.as_str());
        self.container_id = Some(container_id.clone());
        ExecPlan { container_id, cmd, tty, env: Some(env), kind: ChannelStreamKind::Session }
    }

    /// Whether a channel has a terminal, and the environment of its process.
    fn channel_env(&self, channel: u32) -> (r: (bool, Vec<String>))
        requires
            self.tables_ok(),
        ensures
            r.0 == self.pty_map().dom().contains(channel),
            views(r.1@) == exec_env_spec(r.0, self.term_of(channel)),
    {
        match self.ptys.get(&channel) {
            Some(pty) => (true, exec_env(true, pty.term.as_str())),
            None => (false, exec_env(false, DEFAULT_TERM)),
        }
    }

    /// A client asks to run a command on a channel. A payload whose first
    /// word is the command word is an administrative command; any other is
    /// run in the sandbox, which is to be provided.
    pub fn exec_request(&self, channel: u32, command: &str) -> (r: Result<ExecStep, SessionError>)
        ensures
            match r {
                Err(SessionError::NotAuthenticated) => self.github_user is None,
                Err(SessionError::NoProject) => self.github_user is Some && self.project is None,
                Ok(ExecStep::Control(c)) => {
                    &&& self.github_user is Some
                    &&& self.project is Some
                    &&& parse_control_words(words(command@)) == Some(c)
                },
                Ok(ExecStep::Provision(t)) => {
                    &&& parse_control_words(words(command@)) is None
                    &&& opt_view(self.github_user) == Some(t.github_user@)
                    &&& opt_view(self.project) == Some(t.project@)
                },
            },
    {
        match self.session_target() {
            Err(e) => Err(e),
            Ok(target) => match parse_gateway_control_command(command) {
                Some(c) => Ok(ExecStep::Control(c)),
                None => Ok(ExecStep::Provision(target)),
            },
        }
    }

    /// The sandbox for an exec request is there. The connection is bound to
    /// it; the command runs with a terminal exactly if the channel has one.
    pub fn exec_provisioned(&mut self, channel: u32, container_id: String, command: &str) -> (r:
        ExecPlan)
        requires
            old(self).tables_ok(),
        ensures
            final(self).same_login(*old(self)),
            final(self).ptys == old(self).ptys,
            final(self).exec_sessions == old(self).exec_sessions,
            final(self).remote_forwards == old(self).remote_forwards,
            final(self).container_id == Some(container_id),
            r.container_id == container_id,
            r.tty == old(self).pty_map().dom().contains(channel),
            views(r.cmd@) == exec_argv(command@),
            r.env matches Some(env) && views(env@) == exec_env_spec(
                r.tty,
                old(self).term_of(channel),
            ),
            r.kind == ChannelStreamKind::Session,
    {
        let (tty, env) = self.channel_env(channel);
        let cmd = exec_command(command);
        self.container_id = Some(container_id.clone());
        ExecPlan { container_id, cmd, tty, env: Some(env), kind: ChannelStreamKind::Session }
    }

    /// A process has been started for a channel. It is noted as serving
    /// the channel and as taking input. For a session channel with a
    /// terminal, the process's terminal is to be set to the terminal's
    /// size.
    pub fn start_exec_session(
        &mut self,
        channel: u32,
        exec_id: String,
        tty: bool,
        kind: ChannelStreamKind,
    ) -> (r: Option<ResizeRequest>)
        requires
            old(self).tables_ok(),
        ensures
            final(self).tables_ok(),
            final(self).same_login(*old(self)),
            final(self).container_id == old(self).container_id,
            final(self).ptys == old(self).ptys,
            final(self).remote_forwards == old(self).remote_forwards,
            final(self).exec_map() == old(self).exec_map().insert(
                channel,
                ExecSession { exec_id, tty, stdin_open: true, kind },
            ),
            match r {
                Some(resize) => {
                    &&& kind == ChannelStreamKind::Session
                    &&& old(self).pty_map().dom().contains(channel)
                    &&& resize.exec_id == exec_id
                    &&& resize.width == dimension(old(self).pty_map()[channel].cols)
                    &&& resize.height == dimension(old(self).pty_map()[channel].rows)
                },
                None => kind != ChannelStreamKind::Session || !old(self).pty_map().dom().contains(
                    channel,
                ),
            },
    {
        let resize = match kind {
            ChannelStreamKind::TcpForward => None,
            ChannelStreamKind::Session => match self.ptys.get(&channel) {
                Some(pty) => Some(
                    ResizeRequest {
                        exec_id: exec_id.clone(),
                        width: dimension_of(pty.cols),
                        height: dimension_of(pty.rows),
                    },
                ),
                None => None,
            },
        };
        self.exec_sessions.insert(channel, ExecSession { exec_id, tty, stdin_open: true, kind });
        resize
    }

    /// A client's window has changed. The channel's terminal, if it has
    /// one, takes the new size; the terminal of its process is to be set to
    /// it where the process has one.
    pub fn window_change_request(&mut self, channel: u32, cols: u32, rows: u32) -> (r: Option<
        ResizeRequest,
    >)
        requires
            old(self).tables_ok(),
        ensures
            final(self).tables_ok(),
            final(self).same_login(*old(self)),
            final(self).container_id == old(self).container_id,
            final(self).exec_sessions == old(self).exec_sessions,
            final(self).remote_forwards == old(self).remote_forwards,
            if old(self).pty_map().dom().contains(channel) {
                let e = old(self).pty_map()[channel];
                final(self).pty_map() == old(self).pty_map().insert(
                    channel,
                    PtyInfo { term: e.term, cols, rows },
                )
            } else {
                final(self).pty_map() == old(self).pty_map()
            },
            match r {
                Some(resize) => {
                    &&& old(self).exec_map().dom().contains(channel)
                    &&& old(self).exec_map()[channel].tty
                    &&& resize.exec_id == old(self).exec_map()[channel].exec_id
                    &&& resize.width == dimension(cols)
                    &&& resize.height == dimension(rows)
                },
                None => !old(self).exec_map().dom().contains(channel) || !old(
                    self,
                ).exec_map()[channel].tty,
            },
    {
        let known = match self.ptys.get(&channel) {
            Some(pty) => Some(pty.term.clone()),
            None => None,
        };
        match known {
            Some(term) => {
                self.ptys.insert(channel, PtyInfo { term, cols, rows });
            },
            None => {},
        }
        match self.exec_sessions.get(&channel) {
            Some(session) => {
                if session.tty {
                    Some(
                        ResizeRequest {
                            exec_id: session.exec_id.clone(),
                            width: dimension_of(cols),
                            height: dimension_of(rows),
                        },
                    )
                } else {
                    None
                }
            },
            None => None,
        }
    }

    /// Data has come from the client on a channel. The result says whether
    /// it goes to a process: the channel must have one that still takes
    /// input.
    pub fn data(&self, channel: u32) -> (r: bool)
        requires
            self.tables_ok(),
        ensures
            r == (self.exec_map().dom().contains(channel) && self.exec_map()[channel].stdin_open),
    {
        match self.exec_sessions.get(&channel) {
            Some(session) => session.stdin_open,
            None => false,
        }
    }

    /// The client has closed its side of a channel: the channel's process
    /// takes no more input. The result says whether there is such a
    /// process, whose input is then to be closed.
    pub fn channel_eof(&mut self, channel: u32) -> (r: bool)
        requires
            old(self).tables_ok(),
        ensures
            final(self).tables_ok(),
            final(self).same_login(*old(self)),
            final(self).container_id == old(self).container_id,
            final(self).ptys == old(self).ptys,
            final(self).remote_forwards == old(self).remote_forwards,
            r == old(self).exec_map().dom().contains(channel),
            if r {
                let e = old(self).exec_map()[channel];
                final(self).exec_map() == old(self).exec_map().insert(
                    channel,
                    ExecSession {
                        exec_id: e.exec_id,
                        tty: e.tty,
                        stdin_open: false,
                        kind: e.kind,
                    },
                )
            } else {
                final(self).exec_map() == old(self).exec_map()
            },
    {
        let closed = match self.exec_sessions.get(&channel) {
            Some(e) => Some(
                ExecSession {
                    exec_id: e.exec_id.clone(),
                    tty: e.tty,
                    stdin_open: false,
                    kind: e.kind,
                },
            ),
            None => None,
        };
        match closed {
            Some(session) => {
                self.exec_sessions.insert(channel, session);
                true
            },
            None => false,
        }
    }

    /// A channel is closed: its terminal and its process are forgotten.
    pub fn channel_close(&mut self, channel: u32)
        requires
            old(self).tables_ok(),
        ensures
            final(self).tables_ok(),
            final(self).same_login(*old(self)),
            final(self).container_id == old(self).container_id,
            final(self).remote_forwards == old(self).remote_forwards,
            final(self).pty_map() == old(self).pty_map().remove(channel),
            final(self).exec_map() == old(self).exec_map().remove(channel),
    {
        self.exec_sessions.remove(&channel);
        self.ptys.remove(&channel);
    }

    /// A client asks for a connection to `host:port` as seen from the
    /// sandbox. The policy decides first; then the sandbox is provided
    /// unless the connection is bound to one already.
    pub fn channel_open_direct_tcpip(
        &self,
        policy: &PortForwardingConfig,
        host: &str,
        port: u32,
    ) -> (r: Result<DirectStep, SessionError>)
        ensures
            match local_destination(*policy, host@) {
                None => r matches Ok(DirectStep::Refuse),
                Some(dest) => match r {
                    Err(SessionError::NotAuthenticated) => self.github_user is None,
                    Err(SessionError::NoProject) => self.github_user is Some && self.project
                        is None,
                    Ok(DirectStep::Refuse) => false,
                    Ok(DirectStep::Provision { request, dest_host }) => {
                        &&& self.container_id is None
                        &&& opt_view(self.github_user) == Some(request.github_user@)
                        &&& opt_view(self.project) == Some(request.project@)
                        &&& dest_host@ == dest
                    },
                    Ok(DirectStep::Spawn(plan)) => {
                        &&& self.github_user is Some
                        &&& self.project is Some
                        &&& opt_view(self.container_id) == Some(plan.container_id@)
                        &&& views(plan.cmd@) == forward_argv(dest, port)
                        &&& !plan.tty
                        &&& plan.env is None
                        &&& plan.kind == ChannelStreamKind::TcpForward
                    },
                },
            },
    {
        if !policy.allow_local {
            return Ok(DirectStep::Refuse);
        }
        let dest = if is_localhost(host) {
            LOOPBACK.to_owned()
        } else if policy.allow_nonlocal_destinations {
            String::from_str(host)
        } else {
            return Ok(DirectStep::Refuse);
        };
        match self.session_target() {
            Err(e) => Err(e),
            Ok(request) => match &self.container_id {
                None => Ok(DirectStep::Provision { request, dest_host: dest }),
                Some(id) => Ok(
                    DirectStep::Spawn(
                        ExecPlan {
                            container_id: id.clone(),
                            cmd: forward_command(dest.as_str(), port),
                            tty: false,
                            env: None,
                            kind: ChannelStreamKind::TcpForward,
                        },
                    ),
                ),
            },
        }
    }

    /// The sandbox for a forwarded connection is there. The connection is
    /// bound to it, and the process that serves the channel is to be
    /// started.
    pub fn direct_tcpip_provisioned(&mut self, container_id: String, dest_host: &str, port: u32) -> (r:
        ExecPlan)
        ensures
            final(self).same_login(*old(self)),
            final(self).ptys == old(self).ptys,
            final(self).exec_sessions == old(self).exec_sessions,
            final(self).remote_forwards == old(self).remote_forwards,
            final(self).container_id == Some(container_id),
            r.container_id == container_id,
            views(r.cmd@) == forward_argv(dest_host@, port),
            !r.tty,
            r.env is None,
            r.kind == ChannelStreamKind::TcpForward,
    {
        self.container_id = Some(container_id.clone());
        ExecPlan {
            container_id,
            cmd: forward_command(dest_host, port),
            tty: false,
            env: None,
            kind: ChannelStreamKind::TcpForward,
        }
    }

    /// A client asks the gateway to listen on `address:port` for it. Where
    /// the policy allows remote forwarding, the listener is to be bound on
    /// the address that the policy gives.
    pub fn tcpip_forward(&self, policy: &PortForwardingConfig, address: &str, port: u32) -> (r:
        Option<BindRequest>)
        ensures
            match r {
                None => !policy.allow_remote,
                Some(b) => {
                    &&& policy.allow_remote
                    &&& b.bind_addr@ == bind_address(policy.allow_gateway_ports, address@)
                    &&& b.port == port
                },
            },
    {
        if !policy.allow_remote {
            return None;
        }
        let bind_addr = if !policy.allow_gateway_ports {
            LOOPBACK.to_owned()
        } else if address.unicode_len() == 0 || str_eq(address, "0.0.0.0") || str_eq(address, "*") {
            ANY_ADDRESS.to_owned()
        } else if is_localhost(address) {
            LOOPBACK.to_owned()
        } else {
            String::from_str(address)
        };
        Some(BindRequest { bind_addr, port })
    }

    /// The port under which a forward is kept and answered: the one asked
    /// for, or the one that the system chose where the client asked for 0
    /// and the system tells its choice.
    pub open spec fn forwarded_port(requested: u32, outcome: BindOutcome) -> u32 {
        match outcome {
            BindOutcome::Bound(Some(actual)) => if requested == 0 {
                actual as u32
            } else {
                requested
            },
            _ => requested,
        }
    }

    /// The listener for a remote forward was bound, or could not be. A
    /// bound listener is kept under the address that the client named and
    /// its port. The result says whether the request succeeded, and gives
    /// the port for the reply.
    pub fn tcpip_forward_bound(&mut self, address: &str, requested: u32, outcome: BindOutcome) -> (r:
        (bool, u32))
        requires
            old(self).tables_ok(),
        ensures
            final(self).tables_ok(),
            final(self).same_login(*old(self)),
            final(self).container_id == old(self).container_id,
            final(self).ptys == old(self).ptys,
            final(self).exec_sessions == old(self).exec_sessions,
            r.1 == Self::forwarded_port(requested, outcome),
            r.0 == (outcome is Bound),
            if r.0 {
                &&& final(self).forward_map().dom() == old(self).forward_map().dom().insert(
                    (address@, r.1),
                )
                &&& forall|k: (Seq<char>, u32)|
                    old(self).forward_map().dom().contains(k) && k != (address@, r.1)
                        ==> #[trigger] final(self).forward_map()[k] == old(self).forward_map()[k]
            } else {
                final(self).remote_forwards == old(self).remote_forwards
            },
    {
        let port = match outcome {
            BindOutcome::Failed => {
                return (false, requested);
            },
            BindOutcome::Bound(Some(actual)) => if requested == 0 {
                actual as u32
            } else {
                requested
            },
            BindOutcome::Bound(None) => requested,
        };
        let row = ForwardKey { address: String::from_str(address), port };
        match self.find_forward(address, port) {
            Some(i) => {
                proof {
                    lemma_table_update(self.remote_forwards@, forward_key(), i as int, row);
                    lemma_table_at(self.remote_forwards@, forward_key(), i as int);
                    assert(self.forward_map().insert((address@, port), row).dom()
                        =~= self.forward_map().dom().insert((address@, port)));
                }
                self.remote_forwards.set(i, row);
            },
            None => {
                proof {
                    lemma_table_push(self.remote_forwards@, forward_key(), row);
                    assert(self.forward_map().insert((address@, port), row).dom()
                        =~= self.forward_map().dom().insert((address@, port)));
                }
                self.remote_forwards.push(row);
            },
        }
        (true, port)
    }

    /// A client takes back a remote forward. The result says whether there
    /// was one, whose listener is then to be stopped.
    pub fn cancel_tcpip_forward(&mut self, address: &str, port: u32) -> (r: bool)
        requires
            old(self).tables_ok(),
        ensures
            final(self).tables_ok(),
            final(self).same_login(*old(self)),
            final(self).container_id == old(self).container_id,
            final(self).ptys == old(self).ptys,
            final(self).exec_sessions == old(self).exec_sessions,
            r == old(self).forward_map().dom().contains((address@, port)),
            final(self).forward_map() == old(self).forward_map().remove((address@, port)),
    {
        match self.find_forward(address, port) {
            Some(i) => {
                proof {
                    lemma_table_at(self.remote_forwards@, forward_key(), i as int);
                    lemma_table_remove(self.remote_forwards@, forward_key(), i as int);
                }
                self.remote_forwards.remove(i);
                true
            },
            None => {
                proof {
                    lemma_table_absent(self.remote_forwards@, forward_key(), (address@, port));
                    assert(self.forward_map().remove((address@, port)) =~= self.forward_map());
                }
                false
            },
        }
    }

    /// The connection is gone. The result lists the remote forwards, whose
    /// listeners are all to be stopped; nothing of the channels is kept.
    pub fn disconnect(&mut self) -> (r: Vec<ForwardKey>)
        ensures
            r@ == old(self).remote_forwards@,
            final(self).remote_forwards@.len() == 0,
            final(self).pty_map() == Map::<u32, PtyInfo>::empty(),
            final(self).exec_map() == Map::<u32, ExecSession>::empty(),
            final(self).tables_ok(),
            final(self).same_login(*old(self)),
    {
        let mut forwards: Vec<ForwardKey> = Vec::new();
        std::mem::swap(&mut forwards, &mut self.remote_forwards);
        self.ptys.clear();
        self.exec_sessions.clear();
        forwards
    }
}

} // verus!

verus! {

/// Without leave to bind other interfaces, the listener of every remote
/// forward is bound on loopback, whatever address the client asks for.
pub proof fn lemma_gateway_ports_off_binds_loopback(address: Seq<char>)
    ensures
        bind_address(false, address) == LOOPBACK@,
{
}

} // verus!
