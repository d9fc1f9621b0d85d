//! Sandboxes: how a container is named, configured and confined, and how a
//! workspace directory is made writable for it.

use vstd::prelude::*;
use vstd::string::StringExecFns;
use crate::config::{ContainerSecurityConfig, GatewayConfig};
use crate::text::{
    chars_of, copy_strings, decimal, decimal_string, join, joined, parse_i64, parsed_i64, trim,
    trim_bounds, views,
};
use crate::timefmt::{spec_utc_date, utc_date};

verus! {

/// What `destroy` is to spare or to skip.
#[derive(Debug, Clone, Copy, PartialEq, Eq, Structural)]
pub struct DestroyOptions {
    /// Leave the workspace directory on the host.
    pub keep_workspace: bool,
    /// Remove containers without stopping them first.
    pub force: bool,
    /// Change nothing; only say what would be done.
    pub dry_run: bool,
}

/// What `destroy` did.
#[derive(Debug, Clone)]
pub struct DestroyResult {
    pub removed_containers: Vec<String>,
    pub workspace_path: String,
    /// The workspace directory was deleted.
    pub workspace_deleted: bool,
    /// The run was a dry one and found the workspace directory, which a
    /// run in earnest would delete.
    pub workspace_would_be_deleted: bool,
    pub state_entry_deleted: bool,
    pub warnings: Vec<String>,
    /// Nothing was changed: the run only told what would be done.
    pub dry_run: bool,
}

/// `yes` or `no`.
pub open spec fn yes_no(b: bool) -> Seq<char> {
    if b {
        "yes"@
    } else {
        "no"@
    }
}

/// One line for each warning.
pub open spec fn warning_lines(warnings: Seq<Seq<char>>) -> Seq<char>
    decreases warnings.len(),
{
    if warnings.len() == 0 {
        Seq::empty()
    } else {
        warning_lines(warnings.drop_last()) + "  - "@ + warnings.last() + "\n"@
    }
}

/// What became of the workspace directory. After a run in earnest: `yes`
/// where it was deleted, else `no`. After a dry run: `would delete
/// (dry-run)` where the run found it and would have deleted it, else `no`.
pub open spec fn workspace_fate(dry_run: bool, deleted: bool, would_be_deleted: bool) -> Seq<char> {
    if dry_run {
        if would_be_deleted {
            "would delete (dry-run)"@
        } else {
            "no"@
        }
    } else {
        yes_no(deleted)
    }
}

/// A dry run never shows the workspace directory as deleted.
pub proof fn lemma_dry_run_shows_nothing_deleted(deleted: bool, would_be_deleted: bool)
    ensures
        workspace_fate(true, deleted, would_be_deleted) != "yes"@,
{
    reveal_strlit("yes");
    reveal_strlit("no");
    reveal_strlit("would delete (dry-run)");
    assert("yes"@.len() == 3);
    assert("no"@.len() == 2);
    assert("would delete (dry-run)"@.len() == 22);
}

/// The report on a `destroy`, as the client reads it. After a dry run the
/// containers carry the mark `(dry-run)`, and the workspace directory is
/// shown as one that would be deleted, never as deleted.
pub open spec fn destroy_report(
    removed: Seq<Seq<char>>,
    path: Seq<char>,
    dry_run: bool,
    workspace_deleted: bool,
    workspace_would_be_deleted: bool,
    state_entry_deleted: bool,
    warnings: Seq<Seq<char>>,
) -> Seq<char> {
    "agentman: destroy summary\n"@ + "- removed containers: "@ + (if removed.len() == 0 {
        "(none)"@
    } else {
        joined(removed, ", "@)
    }) + "\n"@ + "- workspace path: "@ + path + "\n"@ + "- workspace deleted: "@ + workspace_fate(
        dry_run,
        workspace_deleted,
        workspace_would_be_deleted,
    ) + "\n"@ + "- state entry deleted: "@ + yes_no(state_entry_deleted) + "\n"@ + (if warnings.len()
        == 0 {
        Seq::<char>::empty()
    } else {
        "- warnings:\n"@ + warning_lines(warnings)
    })
}

fn yes_no_text(b: bool) -> (r: &'static str)
    ensures
        r@ == yes_no(b),
{
    if b {
        "yes"
    } else {
        "no"
    }
}

impl DestroyResult {
    /// The report for the client.
    pub fn format_human(&self) -> (r: String)
        ensures
            r@ == destroy_report(
                views(self.removed_containers@),
                self.workspace_path@,
                self.dry_run,
                self.workspace_deleted,
                self.workspace_would_be_deleted,
                self.state_entry_deleted,
                views(self.warnings@),
            ),
    {
        let mut out = String::from_str("agentman: destroy summary\n");
        out.append("- removed containers: ");
        if self.removed_containers.len() == 0 {
            out.append("(none)");
        } else {
            let list = join(&self.removed_containers, ", ");
            out.append(list.as_str());
        }
        out.append("\n");
        out.append("- workspace path: ");
        out.append(self.workspace_path.as_str());
        out.append("\n");
        out.append("- workspace deleted: ");
        if self.dry_run {
            if self.workspace_would_be_deleted {
                out.append("would delete (dry-run)");
            } else {
                out.append("no");
            }
        } else {
            out.append(yes_no_text(self.workspace_deleted));
        }
        out.append("\n");
        out.append("- state entry deleted: ");
        out.append(yes_no_text(self.state_entry_deleted));
        out.append("\n");
        let ghost head = out@;
        if self.warnings.len() > 0 {
            out.append("- warnings:\n");
            let ghost base = out@;
            let mut i: usize = 0;
            assert(views(self.warnings@).take(0) =~= Seq::<Seq<char>>::empty());
            while i < self.warnings.len()
                invariant
                    i <= self.warnings.len(),
                    out@ == base + warning_lines(views(self.warnings@).take(i as int)),
                decreases self.warnings.len() - i,
            {
                proof {
                    let t = views(self.warnings@).take(i as int + 1);
                    assert(t.drop_last() == views(self.warnings@).take(i as int));
                    assert(t.last() == self.warnings@[i as int]@);
                }
                out.append("  - ");
                out.append(self.warnings[i].as_str());
                out.append("\n");
                i += 1;
            }
            assert(views(self.warnings@).take(self.warnings.len() as int) == views(self.warnings@));
            assert(out@ == head + ("- warnings:\n"@ + warning_lines(views(self.warnings@))));
        } else {
            assert(out@ == head + Seq::<char>::empty());
        }
        out
    }
}

/// Why a memory limit is refused.
#[derive(Debug, Clone, Copy, PartialEq, Eq, Structural)]
pub enum MemoryLimitError {
    /// The text is no number with an optional unit.
    Invalid,
    /// The number of bytes does not fit 64 bits.
    OutOfRange,
}

/// A letter in lower case: an ASCII capital becomes small, and the Kelvin
/// sign becomes `k`; every other character is left as it is.
pub open spec fn fold_case(c: char) -> char {
    if 'A' <= c && c <= 'Z' {
        ((c as u8 + 32) as u8) as char
    } else if c == '\u{212a}' {
        'k'
    } else {
        c
    }
}

/// A text with each letter in lower case.
pub open spec fn lowered(s: Seq<char>) -> Seq<char> {
    Seq::new(s.len(), |i: int| fold_case(s[i]))
}

/// `s` without the `c`s at its end.
pub open spec fn without_trailing(s: Seq<char>, c: char) -> Seq<char>
    decreases s.len(),
{
    if s.len() > 0 && s.last() == c {
        without_trailing(s.drop_last(), c)
    } else {
        s
    }
}

/// The bytes in a unit: 2^30 for `g`, 2^20 for `m`, 2^10 for `k`.
pub open spec fn unit_bytes(c: char) -> int {
    if c == 'g' {
        0x4000_0000
    } else if c == 'm' {
        0x10_0000
    } else if c == 'k' {
        0x400
    } else {
        1
    }
}

/// The number of bytes that a memory limit names: a numeral, followed by
/// `g`, `m` or `k` in either case or by nothing, with blanks around it
/// ignored.
pub open spec fn memory_limit_value(s: Seq<char>) -> Result<int, MemoryLimitError> {
    let t = lowered(trim(s));
    let unit = if t.len() > 0 {
        unit_bytes(t.last())
    } else {
        1
    };
    let numeral = if unit != 1 {
        without_trailing(t, t.last())
    } else {
        t
    };
    match parsed_i64(numeral) {
        None => Err(MemoryLimitError::Invalid),
        Some(n) => if i64::MIN <= n * unit <= i64::MAX {
            Ok(n * unit)
        } else {
            Err(MemoryLimitError::OutOfRange)
        },
    }
}

proof fn lemma_without_trailing(s: Seq<char>, c: char, k: int)
    requires
        0 <= k <= s.len(),
        forall|j: int| k <= j < s.len() ==> s[j] == c,
        k > 0 ==> s[k - 1] != c,
    ensures
        without_trailing(s, c) == s.take(k),
    decreases s.len() - k,
{
    if k == s.len() {
        assert(s.take(k) == s);
    } else {
        lemma_without_trailing(s.drop_last(), c, k);
        assert(s.drop_last().take(k) == s.take(k));
    }
}

/// Reads a memory limit such as `4g`, `512m`, `1024k` or `1000`.
pub fn parse_memory_limit(s: &str) -> (r: Result<i64, MemoryLimitError>)
    ensures
        match r {
            Ok(n) => memory_limit_value(s@) == Ok::<int, MemoryLimitError>(n as int),
            Err(e) => memory_limit_value(s@) == Err::<int, _>(e),
        },
{
    let v = chars_of(s);
    assert(v@.subrange(0, v.len() as int) == v@);
    let (a, b) = trim_bounds(&v, 0, v.len());
    let ghost t0 = trim(s@);
    let mut low: Vec<char> = Vec::new();
    let mut i: usize = a;
    while i < b
        invariant
            a <= i <= b <= v.len(),
            t0 == v@.subrange(a as int, b as int),
            low@ == lowered(t0).take(i - a),
        decreases b - i,
    {
        let c = v[i];
        let l = if 'A' <= c && c <= 'Z' {
            ((c as u8) + 32) as char
        } else if c == '\u{212a}' {
            'k'
        } else {
            c
        };
        low.push(l);
        i += 1;
        proof {
            assert(t0[i - a - 1] == c);
            assert(lowered(t0).take(i - a) == lowered(t0).take(i - a - 1).push(
                lowered(t0)[i - a - 1],
            ));
        }
    }
    let ghost t = lowered(t0);
    assert(t.take(t.len() as int) == t);
    let n = low.len();
    let unit: i64 = if n == 0 {
        1
    } else if low[n - 1] == 'g' {
        0x4000_0000
    } else if low[n - 1] == 'm' {
        0x10_0000
    } else if low[n - 1] == 'k' {
        0x400
    } else {
        1
    };
    let mut end: usize = n;
    if unit != 1 {
        let c = low[n - 1];
        while end > 0 && low[end - 1] == c
            invariant
                end <= n,
                n == low.len(),
                forall|j: int| end <= j < n ==> low@[j] == c,
            decreases end,
        {
            end -= 1;
        }
        proof {
            lemma_without_trailing(low@, c, end as int);
        }
    }
    assert(low@.take(end as int) == low@.subrange(0, end as int));
    assert(low@.take(n as int) == low@);
    match parse_i64(&low, 0, end) {
        None => Err(MemoryLimitError::Invalid),
        Some(k) => {
            assert(-0x2000_0000_0000_0000_0000_0000 <= k * unit <= 0x2000_0000_0000_0000_0000_0000)
                by (nonlinear_arith)
                requires
                    -0x8000_0000_0000_0000 <= k <= 0x7fff_ffff_ffff_ffff,
                    1 <= unit <= 0x4000_0000,
            ;
            let wide: i128 = (k as i128) * (unit as i128);
            if wide < i64::MIN as i128 || wide > i64::MAX as i128 {
                Err(MemoryLimitError::OutOfRange)
            } else {
                Ok(wide as i64)
            }
        },
    }
}

/// The environment of a sandbox.
pub open spec fn container_env(
    github_user: Seq<char>,
    project: Seq<char>,
    container_name: Seq<char>,
) -> Seq<Seq<char>> {
    seq![
        "GITHUB_USERNAME="@ + github_user,
        "AGENTMAN_PROJECT="@ + project,
        "AGENTMAN_CONTAINER_ID="@ + container_name,
        "TERM=xterm-256color"@,
    ]
}

/// The environment of a sandbox.
pub fn build_env(github_user: &str, project: &str, container_name: &str) -> (r: Vec<String>)
    ensures
        views(r@) == container_env(github_user@, project@, container_name@),
{
    let mut env: Vec<String> = Vec::new();
    let mut a = String::from_str("GITHUB_USERNAME=");
    a.append(github_user);
    env.push(a);
    let mut b = String::from_str("AGENTMAN_PROJECT=");
    b.append(project);
    env.push(b);
    let mut c = String::from_str("AGENTMAN_CONTAINER_ID=");
    c.append(container_name);
    env.push(c);
    env.push(String::from_str("TERM=xterm-256color"));
    assert(views(env@) =~= container_env(github_user@, project@, container_name@));
    env
}

/// A name with its value: a label, or a mount point with its options.
#[derive(Debug, Clone)]
pub struct Pair {
    pub name: String,
    pub value: String,
}

/// The views of a list of pairs.
pub open spec fn pair_views(v: Seq<Pair>) -> Seq<(Seq<char>, Seq<char>)> {
    v.map_values(|p: Pair| (p.name@, p.value@))
}

fn pair(name: &str, value: &str) -> (r: Pair)
    ensures
        r.name@ == name@,
        r.value@ == value@,
{
    Pair { name: String::from_str(name), value: String::from_str(value) }
}

/// The labels of a sandbox: that the gateway manages it, and whose
/// workspace it serves.
pub open spec fn container_labels(
    github_user: Seq<char>,
    project: Seq<char>,
    workspace_path: Seq<char>,
) -> Seq<(Seq<char>, Seq<char>)> {
    seq![
        ("agentman.managed"@, "true"@),
        ("agentman.github_user"@, github_user),
        ("agentman.project"@, project),
        ("agentman.workspace_path"@, workspace_path),
    ]
}

/// The labels of a sandbox.
pub fn build_labels(github_user: &str, project: &str, workspace_path: &str) -> (r: Vec<Pair>)
    ensures
        pair_views(r@) == container_labels(github_user@, project@, workspace_path@),
{
    let mut labels: Vec<Pair> = Vec::new();
    labels.push(pair("agentman.managed", "true"));
    labels.push(pair("agentman.github_user", github_user));
    labels.push(pair("agentman.project", project));
    labels.push(pair("agentman.workspace_path", workspace_path));
    assert(pair_views(labels@) =~= container_labels(github_user@, project@, workspace_path@));
    labels
}

/// How a sandbox is tied to its host.
#[derive(Debug, Clone)]
pub struct HostSettings {
    pub binds: Vec<String>,
    pub extra_hosts: Vec<String>,
    pub privileged: bool,
    pub network_mode: String,
    pub init: bool,
    pub cap_drop: Option<Vec<String>>,
    pub cap_add: Option<Vec<String>>,
    pub security_opt: Option<Vec<String>>,
    pub readonly_rootfs: bool,
    /// The memory file systems, each with its mount point and options.
    pub tmpfs: Vec<Pair>,
    pub memory: Option<i64>,
    pub nano_cpus: Option<i64>,
}

/// The memory file systems of a sandbox with a read-only root.
pub open spec fn readonly_tmpfs() -> Seq<(Seq<char>, Seq<char>)> {
    seq![
        ("/tmp"@, "rw,noexec,nosuid,size=1g"@),
        ("/run"@, "rw,noexec,nosuid,size=64m"@),
        ("/var/tmp"@, "rw,noexec,nosuid,size=256m"@),
    ]
}

/// The views of an optional list of strings.
pub open spec fn opt_views(o: Option<Vec<String>>) -> Option<Seq<Seq<char>>> {
    match o {
        Some(v) => Some(views(v@)),
        None => None,
    }
}

/// The host settings `h` are those of a sandbox whose workspace lies at
/// `workspace_path` and which is confined as `security` says.
pub open spec fn confines(
    h: HostSettings,
    security: ContainerSecurityConfig,
    workspace_path: Seq<char>,
) -> bool {
    &&& views(h.binds@) == seq![workspace_path + ":/workspace"@]
    &&& views(h.extra_hosts@) == seq!["host.docker.internal:host-gateway"@]
    &&& !h.privileged
    &&& h.network_mode@ == "bridge"@
    &&& h.init
    &&& opt_views(h.cap_drop) == (if security.cap_drop_all {
        Some(seq!["ALL"@])
    } else {
        None
    })
    &&& opt_views(h.cap_add) == (if security.cap_drop_all && security.cap_add@.len() > 0 {
        Some(views(security.cap_add@))
    } else {
        None
    })
    &&& opt_views(h.security_opt) == (if security.no_new_privileges {
        Some(seq!["no-new-privileges:true"@])
    } else {
        None
    })
    &&& h.readonly_rootfs == security.readonly_rootfs
    &&& pair_views(h.tmpfs@) == (if security.readonly_rootfs {
        readonly_tmpfs()
    } else {
        Seq::empty()
    })
    &&& match security.memory_limit {
        Some(m) => h.memory matches Some(bytes) && memory_limit_value(m@) == Ok::<
            int,
            MemoryLimitError,
        >(bytes as int),
        None => h.memory is None,
    }
    &&& h.nano_cpus == security.cpu_limit_nanos
}

/// The host settings of a sandbox whose workspace lies at `workspace_path`:
/// the workspace is mounted at `/workspace`; the sandbox is never
/// privileged, runs on the bridge network with an init process, and is
/// confined as `security` says.
pub fn build_host_config(security: &ContainerSecurityConfig, workspace_path: &str) -> (r: Result<
    HostSettings,
    MemoryLimitError,
>)
    ensures
        match r {
            Err(e) => security.memory_limit matches Some(m) && memory_limit_value(m@) == Err::<
                int,
                _,
            >(e),
            Ok(h) => confines(h, *security, workspace_path@),
        },
{
    let memory = match &security.memory_limit {
        Some(m) => match parse_memory_limit(m.as_str()) {
            Ok(bytes) => Some(bytes),
            Err(e) => {
                return Err(e);
            },
        },
        None => None,
    };
    let mut bind = String::from_str(workspace_path);
    bind.append(":/workspace");
    let mut binds: Vec<String> = Vec::new();
    binds.push(bind);
    let mut extra_hosts: Vec<String> = Vec::new();
    extra_hosts.push(String::from_str("host.docker.internal:host-gateway"));
    let mut cap_drop: Option<Vec<String>> = None;
    let mut cap_add: Option<Vec<String>> = None;
    if security.cap_drop_all {
        let mut all: Vec<String> = Vec::new();
        all.push(String::from_str("ALL"));
        assert(views(all@) =~= seq!["ALL"@]);
        cap_drop = Some(all);
        if security.cap_add.len() > 0 {
            cap_add = Some(copy_strings(&security.cap_add));
        }
    }
    let mut security_opt: Option<Vec<String>> = None;
    if security.no_new_privileges {
        let mut opts: Vec<String> = Vec::new();
        opts.push(String::from_str("no-new-privileges:true"));
        assert(views(opts@) =~= seq!["no-new-privileges:true"@]);
        security_opt = Some(opts);
    }
    let mut tmpfs: Vec<Pair> = Vec::new();
    if security.readonly_rootfs {
        tmpfs.push(pair("/tmp", "rw,noexec,nosuid,size=1g"));
        tmpfs.push(pair("/run", "rw,noexec,nosuid,size=64m"));
        tmpfs.push(pair("/var/tmp", "rw,noexec,nosuid,size=256m"));
        assert(pair_views(tmpfs@) =~= readonly_tmpfs());
    } else {
        assert(pair_views(tmpfs@) =~= Seq::<(Seq<char>, Seq<char>)>::empty());
    }
    assert(views(binds@) =~= seq![workspace_path@ + ":/workspace"@]);
    assert(views(extra_hosts@) =~= seq!["host.docker.internal:host-gateway"@]);
    Ok(
        HostSettings {
            binds,
            extra_hosts,
            privileged: false,
            network_mode: String::from_str("bridge"),
            init: true,
            cap_drop,
            cap_add,
            security_opt,
            readonly_rootfs: security.readonly_rootfs,
            tmpfs,
            memory,
            nano_cpus: security.cpu_limit_nanos,
        },
    )
}

/// Everything that the engine is told when a sandbox is created.
#[derive(Debug, Clone)]
pub struct ContainerSpec {
    pub name: String,
    pub image: String,
    pub hostname: String,
    pub env: Vec<String>,
    pub labels: Vec<Pair>,
    pub host: HostSettings,
    pub working_dir: String,
    pub tty: bool,
    pub open_stdin: bool,
    pub attach_stdin: bool,
    pub attach_stdout: bool,
    pub attach_stderr: bool,
}

/// `c` is the sandbox named `name` for the workspace of an identity and a
/// project, as the settings have it.
pub open spec fn describes_sandbox(
    c: ContainerSpec,
    config: GatewayConfig,
    github_user: Seq<char>,
    project: Seq<char>,
    name: Seq<char>,
    workspace_path: Seq<char>,
) -> bool {
    &&& c.name@ == name
    &&& c.hostname@ == name
    &&& c.image@ == config.docker_image@
    &&& views(c.env@) == container_env(github_user, project, name)
    &&& pair_views(c.labels@) == container_labels(github_user, project, workspace_path)
    &&& confines(c.host, config.container_security, workspace_path)
    &&& c.working_dir@ == "/workspace"@
    &&& c.tty
    &&& c.open_stdin
    &&& c.attach_stdin
    &&& c.attach_stdout
    &&& c.attach_stderr
}

/// The sandbox named `name` for the workspace of an identity and a
/// project, made from the configured image: its host name is its name, it
/// starts in `/workspace`, and it has a terminal and an open input.
pub fn build_container_spec(
    config: &GatewayConfig,
    github_user: &str,
    project: &str,
    name: &str,
    workspace_path: &str,
) -> (r: Result<ContainerSpec, MemoryLimitError>)
    ensures
        match r {
            Err(e) => config.container_security.memory_limit matches Some(m) && memory_limit_value(
                m@,
            ) == Err::<int, _>(e),
            Ok(c) => describes_sandbox(c, *config, github_user@, project@, name@, workspace_path@),
        },
{
    match build_host_config(&config.container_security, workspace_path) {
        Err(e) => Err(e),
        Ok(host) => Ok(
            ContainerSpec {
                name: String::from_str(name),
                image: config.docker_image.clone(),
                hostname: String::from_str(name),
                env: build_env(github_user, project, name),
                labels: build_labels(github_user, project, workspace_path),
                host,
                working_dir: String::from_str("/workspace"),
                tty: true,
                open_stdin: true,
                attach_stdin: true,
                attach_stdout: true,
                attach_stderr: true,
            },
        ),
    }
}

/// The first name tried for a sandbox: `<project>-<identity>-<date>`.
pub open spec fn base_name(project: Seq<char>, github_user: Seq<char>, date: Seq<char>) -> Seq<
    char,
> {
    project + "-"@ + github_user + "-"@ + date
}

/// The name tried at the given attempt: the base name at first, then the
/// base name with `-1`, `-2` and so on.
pub open spec fn candidate_name(base: Seq<char>, attempt: u32) -> Seq<char> {
    if attempt == 0 {
        base
    } else {
        base + "-"@ + decimal(attempt as nat)
    }
}

/// The last attempt at a free name.
pub const NAME_ATTEMPTS_MAX: u32 = 100;

/// The base name of a sandbox created at the Unix time `secs`, where the
/// date of that time can be told.
pub fn container_base_name(project: &str, github_user: &str, secs: i64) -> (r: Option<String>)
    ensures
        match r {
            Some(n) => spec_utc_date(secs as int) matches Some(d) && n@ == base_name(
                project@,
                github_user@,
                d,
            ),
            None => spec_utc_date(secs as int) is None,
        },
{
    match utc_date(secs) {
        None => None,
        Some(date) => Some(name_with_date(project, github_user, date.as_str())),
    }
}

/// The base name of a sandbox created on the given date.
pub fn name_with_date(project: &str, github_user: &str, date: &str) -> (r: String)
    ensures
        r@ == base_name(project@, github_user@, date@),
{
    let mut out = String::from_str(project);
    out.append("-");
    out.append(github_user);
    out.append("-");
    out.append(date);
    out
}

/// The name tried at the given attempt.
pub fn name_candidate(base: &str, attempt: u32) -> (r: String)
    ensures
        r@ == candidate_name(base@, attempt),
{
    let mut out = String::from_str(base);
    if attempt > 0 {
        out.append("-");
        let n = decimal_string(attempt as u64);
        out.append(n.as_str());
    }
    out
}

/// The user and the group under which a sandbox's processes run.
pub const CONTAINER_UID: u32 = 1000;

pub const CONTAINER_GID: u32 = 1000;

/// The owner and the permission bits of a directory.
#[derive(Debug, Clone, Copy, PartialEq, Eq, Structural)]
pub struct DirStat {
    pub uid: u32,
    pub gid: u32,
    pub mode: u32,
}

/// Whether the sandbox's user can write and enter a directory: by the
/// owner's bits where it owns the directory, else by the group's bits where
/// the directory belongs to its group, else by the bits for all others.
pub open spec fn sandbox_can_write(stat: DirStat) -> bool {
    let mode = stat.mode & 0o777;
    if stat.uid == CONTAINER_UID {
        (mode & 0o200 != 0) && (mode & 0o100 != 0)
    } else if stat.gid == CONTAINER_GID {
        (mode & 0o020 != 0) && (mode & 0o010 != 0)
    } else {
        (mode & 0o002 != 0) && (mode & 0o001 != 0)
    }
}

/// Whether the sandbox's user can write a directory.
pub fn workspace_writable(stat: DirStat) -> (r: bool)
    ensures
        r == sandbox_can_write(stat),
{
    let mode = stat.mode & 0o777;
    if stat.uid == CONTAINER_UID {
        (mode & 0o200 != 0) && (mode & 0o100 != 0)
    } else if stat.gid == CONTAINER_GID {
        (mode & 0o020 != 0) && (mode & 0o010 != 0)
    } else {
        (mode & 0o002 != 0) && (mode & 0o001 != 0)
    }
}

/// What is done to a workspace directory next.
#[derive(Debug, Clone, Copy, PartialEq, Eq, Structural)]
pub enum WritableStep {
    /// Nothing: the directory is fit.
    Done,
    /// The directory is given to the sandbox's user and group, its mode is
    /// set to this one, and it is looked at again.
    Repair { uid: u32, gid: u32, mode: u32 },
    /// The directory's mode is set to this one.
    OpenUp { mode: u32 },
}

/// The next step towards a workspace directory that the sandbox can
/// write, from what the directory looks like now. A directory that is fit
/// is left alone; one that is not is repaired once; if a repaired one is
/// still unfit, it is opened to everyone.
pub open spec fn writable_step(repaired: bool, stat: DirStat) -> WritableStep {
    if sandbox_can_write(stat) {
        WritableStep::Done
    } else if !repaired {
        WritableStep::Repair { uid: CONTAINER_UID, gid: CONTAINER_GID, mode: 0o775 }
    } else {
        WritableStep::OpenUp { mode: 0o777 }
    }
}

/// Decides how a workspace directory is made writable for the sandbox.
pub fn ensure_workspace_writable(repaired: bool, stat: DirStat) -> (r: WritableStep)
    ensures
        r == writable_step(repaired, stat),
{
    if workspace_writable(stat) {
        WritableStep::Done
    } else if !repaired {
        WritableStep::Repair { uid: CONTAINER_UID, gid: CONTAINER_GID, mode: 0o775 }
    } else {
        WritableStep::OpenUp { mode: 0o777 }
    }
}

} // verus!
