//! The gateway's settings.

use vstd::prelude::*;
use vstd::string::StringExecFns;
use crate::text::{chars_of, views};

verus! {

/// Which kinds of port forwarding clients may ask for.
#[derive(Debug, Clone, Copy, PartialEq, Eq, Structural)]
pub struct PortForwardingConfig {
    /// Forwarding from the client into the sandbox.
    pub allow_local: bool,
    /// Forwarding from a listener on the gateway back to the client.
    pub allow_remote: bool,
    /// Listeners for remote forwarding may bind other addresses than
    /// loopback.
    pub allow_gateway_ports: bool,
    /// Local forwarding may reach other hosts than the sandbox itself.
    pub allow_nonlocal_destinations: bool,
}

impl Default for PortForwardingConfig {
    fn default() -> (r: Self)
        ensures
            r == (PortForwardingConfig {
                allow_local: true,
                allow_remote: true,
                allow_gateway_ports: false,
                allow_nonlocal_destinations: false,
            }),
    {
        PortForwardingConfig {
            allow_local: true,
            allow_remote: true,
            allow_gateway_ports: false,
            allow_nonlocal_destinations: false,
        }
    }
}

/// How a sandbox is confined.
#[derive(Debug, Clone)]
pub struct ContainerSecurityConfig {
    /// Drop every capability.
    pub cap_drop_all: bool,
    /// The capabilities given back after dropping all.
    pub cap_add: Vec<String>,
    pub no_new_privileges: bool,
    /// Mount the root file system read-only.
    pub readonly_rootfs: bool,
    /// The memory limit as a text such as `4g`.
    pub memory_limit: Option<String>,
    /// The CPU limit in billionths of a CPU.
    pub cpu_limit_nanos: Option<i64>,
    pub use_seccomp: bool,
}

/// The capabilities that a sandbox keeps by default.
pub open spec fn default_capabilities() -> Seq<Seq<char>> {
    seq!["CHOWN"@, "DAC_OVERRIDE"@, "FOWNER"@, "SETGID"@, "SETUID"@]
}

impl Default for ContainerSecurityConfig {
    fn default() -> (r: Self)
        ensures
            r.cap_drop_all,
            views(r.cap_add@) == default_capabilities(),
            r.no_new_privileges,
            !r.readonly_rootfs,
            r.memory_limit matches Some(m) && m@ == "4g"@,
            r.cpu_limit_nanos == Some(2_000_000_000i64),
            r.use_seccomp,
    {
        let mut caps: Vec<String> = Vec::new();
        caps.push(String::from_str("CHOWN"));
        caps.push(String::from_str("DAC_OVERRIDE"));
        caps.push(String::from_str("FOWNER"));
        caps.push(String::from_str("SETGID"));
        caps.push(String::from_str("SETUID"));
        assert(views(caps@) =~= default_capabilities());
        ContainerSecurityConfig {
            cap_drop_all: true,
            cap_add: caps,
            no_new_privileges: true,
            readonly_rootfs: false,
            memory_limit: Some(String::from_str("4g")),
            cpu_limit_nanos: Some(2_000_000_000),
            use_seccomp: true,
        }
    }
}

/// What a shell request starts.
#[derive(Debug, Clone, Copy, PartialEq, Eq, Structural)]
pub enum ShellMode {
    /// A login shell.
    Bash,
    /// A terminal multiplexer session, where the client asked for a
    /// terminal.
    Tmux,
}

/// The settings of shell requests.
#[derive(Debug, Clone)]
pub struct ShellConfig {
    pub mode: ShellMode,
    /// The name of the multiplexer session.
    pub tmux_session: String,
}

pub const DEFAULT_TMUX_SESSION: &'static str = "agentman";

impl Default for ShellConfig {
    fn default() -> (r: Self)
        ensures
            r.mode == ShellMode::Bash,
            r.tmux_session@ == DEFAULT_TMUX_SESSION@,
    {
        ShellConfig { mode: ShellMode::Bash, tmux_session: DEFAULT_TMUX_SESSION.to_owned() }
    }
}

/// The gateway's settings.
#[derive(Debug, Clone)]
pub struct GatewayConfig {
    /// The address on which the SSH server listens.
    pub listen_addr: String,
    /// The image that sandboxes are made from.
    pub docker_image: String,
    /// The directory below which the workspaces lie.
    pub workspace_root: String,
    /// The file that holds the lasting state.
    pub state_file: String,
    /// The file that holds the server's host key.
    pub host_key_path: String,
    /// The identities that an unknown key is tried against.
    pub bootstrap_github_users: Vec<String>,
    pub port_forwarding: PortForwardingConfig,
    pub container_security: ContainerSecurityConfig,
    pub shell: ShellConfig,
}

pub const DEFAULT_LISTEN_ADDR: &'static str = "0.0.0.0:2222";

pub const DEFAULT_IMAGE: &'static str = "agentman-base:dev";

/// `name` below the directory `base`: a name that starts at the root
/// replaces the base; otherwise the two are put together with one `/`
/// between them, unless the base is empty or ends with one.
pub open spec fn join_path(base: Seq<char>, name: Seq<char>) -> Seq<char> {
    if name.len() > 0 && name[0] == '/' {
        name
    } else if base.len() == 0 || base.last() == '/' {
        base + name
    } else {
        base + seq!['/'] + name
    }
}

/// The path of `name` below the directory `base`.
pub fn path_join(base: &str, name: &str) -> (r: String)
    ensures
        r@ == join_path(base@, name@),
{
    let b = chars_of(base);
    let n = chars_of(name);
    if n.len() > 0 && n[0] == '/' {
        return String::from_str(name);
    }
    let mut out = String::from_str(base);
    if !(b.len() == 0 || b[b.len() - 1] == '/') {
        out.append("/");
        proof {
            reveal_strlit("/");
            assert("/"@ == seq!['/']);
        }
    }
    out.append(name);
    out
}

/// The directory of a workspace: `<root>/<identity>/<project>`.
pub open spec fn workspace_dir(root: Seq<char>, github_user: Seq<char>, project: Seq<char>) -> Seq<
    char,
> {
    join_path(join_path(root, github_user), project)
}

impl GatewayConfig {
    /// The settings that hold when nothing else is configured, with the
    /// gateway's files below the directory `data_dir`.
    pub fn default_in(data_dir: &str) -> (r: Self)
        ensures
            r.listen_addr@ == DEFAULT_LISTEN_ADDR@,
            r.docker_image@ == DEFAULT_IMAGE@,
            r.workspace_root@ == join_path(data_dir@, "workspaces"@),
            r.state_file@ == join_path(data_dir@, "state.json"@),
            r.host_key_path@ == join_path(data_dir@, "host_key"@),
            r.bootstrap_github_users@.len() == 0,
            r.port_forwarding == (PortForwardingConfig {
                allow_local: true,
                allow_remote: true,
                allow_gateway_ports: false,
                allow_nonlocal_destinations: false,
            }),
            r.shell.mode == ShellMode::Bash,
    {
        GatewayConfig {
            listen_addr: DEFAULT_LISTEN_ADDR.to_owned(),
            docker_image: DEFAULT_IMAGE.to_owned(),
            workspace_root: path_join(data_dir, "workspaces"),
            state_file: path_join(data_dir, "state.json"),
            host_key_path: path_join(data_dir, "host_key"),
            bootstrap_github_users: Vec::new(),
            port_forwarding: PortForwardingConfig::default(),
            container_security: ContainerSecurityConfig::default(),
            shell: ShellConfig::default(),
        }
    }

    /// The directory of the workspace of an identity and a project.
    pub fn workspace_path(&self, github_user: &str, project: &str) -> (r: String)
        ensures
            r@ == workspace_dir(self.workspace_root@, github_user@, project@),
    {
        let user_dir = path_join(self.workspace_root.as_str(), github_user);
        path_join(user_dir.as_str(), project)
    }
}

} // verus!

verus! {

/// The seconds for which the server delays the rejection of a failed
/// authentication attempt.
pub const AUTH_REJECTION_SECS: u64 = 1;

/// The seconds for which it delays the first rejection.
pub const AUTH_REJECTION_INITIAL_SECS: u64 = 0;

/// The permission bits of the host key's file.
pub const HOST_KEY_MODE: u32 = 0o600;

/// The bytes read at once when a forwarded connection is relayed.
pub const RELAY_BUFFER_BYTES: usize = 32768;

/// What is done about the host key at startup.
#[derive(Debug, Clone, Copy, PartialEq, Eq, Structural)]
pub enum HostKeyStep {
    /// The key is read from its file.
    Load,
    /// A new Ed25519 key is made and written to the file with this mode.
    Generate { mode: u32 },
}

/// The host key is read from its file if the file exists, and made anew
/// otherwise.
pub fn host_key_step(file_exists: bool) -> (r: HostKeyStep)
    ensures
        r == (if file_exists {
            HostKeyStep::Load
        } else {
            HostKeyStep::Generate { mode: HOST_KEY_MODE }
        }),
{
    if file_exists {
        HostKeyStep::Load
    } else {
        HostKeyStep::Generate { mode: HOST_KEY_MODE }
    }
}

} // verus!
