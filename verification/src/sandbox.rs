//! The life of a sandbox: finding or creating the container of a
//! workspace, and destroying a workspace.
//!
//! Each is a conversation with the container engine. The functions here
//! hold the gateway's side of it: given the engine's last reply, they say
//! what to ask next. They perform no input or output.

use vstd::prelude::*;
use vstd::string::StringExecFns;
use crate::config::{workspace_dir, GatewayConfig};
use crate::order::{same_strings, sort_dedup, strictly_sorted};
use crate::provision::{
    base_name, build_container_spec, candidate_name, describes_sandbox, memory_limit_value,
    name_candidate, name_with_date, ContainerSpec, DestroyOptions, DestroyResult,
    MemoryLimitError, NAME_ATTEMPTS_MAX,
};
use crate::state::{workspace_key, StateManager, Timestamp, WorkspaceInfo};
use crate::text::{copy_strings, opt_view, str_eq, views};
use crate::timefmt::{spec_utc_date, utc_date};

verus! {

/// What the engine tells of a container.
#[derive(Debug, Clone)]
pub struct ContainerProbe {
    pub id: Option<String>,
    pub running: Option<bool>,
    pub paused: Option<bool>,
}

/// The engine's reply to a request.
#[derive(Debug, Clone)]
pub enum EngineReply {
    /// The request succeeded, and there is nothing to tell.
    Done,
    /// The container looks like this.
    Probe(ContainerProbe),
    /// Whether a container has the name asked for.
    NameTaken(bool),
    /// The container was created with this id.
    Created(String),
    /// There is no such container.
    NotFound,
    /// The request failed, for this reason.
    Failed(String),
}

/// Why no sandbox could be provided.
#[derive(Debug, Clone)]
pub enum ProvisionError {
    /// The workspace directory could not be prepared.
    Directory(String),
    /// The engine failed.
    Engine(String),
    /// Every name tried is taken.
    NoFreeName,
    /// The date of the creation time cannot be told.
    DateOutOfRange,
    /// The configured memory limit is malformed.
    MemoryLimit(MemoryLimitError),
    /// The reply does not answer the request that was made.
    Protocol,
}

/// The next request to the engine, or the end of the conversation.
#[derive(Debug, Clone)]
pub enum ProvisionAction {
    /// Make this directory exist and be writable for the sandbox.
    PrepareDir(String),
    Inspect(String),
    Unpause(String),
    Start(String),
    /// Tell whether a container has this name.
    LookupName(String),
    Create(ContainerSpec),
    /// The sandbox is this container, which runs.
    Done(String),
    Fail(ProvisionError),
}

/// Where the conversation stands: which reply is awaited.
#[derive(Debug, Clone)]
pub enum ProvisionPhase {
    /// The workspace directory is being prepared.
    PreparingDir,
    /// The recorded container is looked up.
    Probing(String),
    /// The found container's state is looked at.
    CheckingState(String),
    /// The container is being unpaused; the flag says that it must be
    /// started afterwards.
    Unpausing(String, bool),
    /// The container is being started.
    Restarting(String),
    /// The name of the given attempt is being looked up.
    Naming { base: String, attempt: u32 },
    /// The workspace directory is being prepared for a new container.
    PreparingNewDir { name: String },
    Creating { name: String },
    StartingNew { name: String, id: String },
    Finished,
}

/// One run of finding or creating the sandbox of a workspace.
#[derive(Debug, Clone)]
pub struct Provisioning {
    pub github_user: String,
    pub project: String,
    pub workspace_path: String,
    /// When the creation of a new container began.
    pub created_at: Timestamp,
    pub phase: ProvisionPhase,
}

/// The engine counts the container as running.
pub open spec fn is_running(p: ContainerProbe) -> bool {
    p.running == Some(true)
}

/// The engine counts the container as paused.
pub open spec fn is_paused(p: ContainerProbe) -> bool {
    p.paused == Some(true)
}

/// The step taken for a container that the state records, once it is being
/// looked at: a container that exists is made to run, by unpausing it if it
/// is paused and starting it if it does not run, and is then the sandbox.
/// `None` where the phase and the reply are not of this part.
pub open spec fn existing_step(phase: ProvisionPhase, reply: EngineReply) -> Option<
    (ProvisionPhase, ProvisionAction),
> {
    match (phase, reply) {
        (ProvisionPhase::Probing(id), EngineReply::Probe(_)) => Some(
            (ProvisionPhase::CheckingState(id), ProvisionAction::Inspect(id)),
        ),
        (ProvisionPhase::CheckingState(id), EngineReply::Probe(p)) => Some(
            if is_paused(p) {
                (ProvisionPhase::Unpausing(id, !is_running(p)), ProvisionAction::Unpause(id))
            } else if !is_running(p) {
                (ProvisionPhase::Restarting(id), ProvisionAction::Start(id))
            } else {
                (ProvisionPhase::Finished, ProvisionAction::Done(id))
            },
        ),
        (ProvisionPhase::Unpausing(id, needs_start), EngineReply::Done) => Some(
            if needs_start {
                (ProvisionPhase::Restarting(id), ProvisionAction::Start(id))
            } else {
                (ProvisionPhase::Finished, ProvisionAction::Done(id))
            },
        ),
        (ProvisionPhase::Restarting(id), EngineReply::Done) => Some(
            (ProvisionPhase::Finished, ProvisionAction::Done(id)),
        ),
        _ => None,
    }
}

/// A container that is found running and not paused is the sandbox as it
/// is: after the two looks at it nothing is asked of the engine, and in
/// particular nothing is created or started.
pub proof fn lemma_running_container_is_reused(
    id: String,
    first: ContainerProbe,
    second: ContainerProbe,
)
    requires
        is_running(second),
        !is_paused(second),
    ensures
        existing_step(ProvisionPhase::Probing(id), EngineReply::Probe(first)) == Some(
            (ProvisionPhase::CheckingState(id), ProvisionAction::Inspect(id)),
        ),
        existing_step(ProvisionPhase::CheckingState(id), EngineReply::Probe(second)) == Some(
            (ProvisionPhase::Finished, ProvisionAction::Done(id)),
        ),
{
}

/// The phase awaits the preparation of the workspace directory.
pub open spec fn prepares_directory(phase: ProvisionPhase) -> bool {
    phase is PreparingDir || phase is PreparingNewDir
}

/// The reply is of the kind that the phase awaits. A failure is of no such
/// kind; it ends every run.
pub open spec fn answers(phase: ProvisionPhase, reply: EngineReply) -> bool {
    match phase {
        ProvisionPhase::PreparingDir => reply is Done,
        ProvisionPhase::Probing(_) => reply is Probe || reply is NotFound,
        ProvisionPhase::CheckingState(_) => reply is Probe,
        ProvisionPhase::Unpausing(_, _) => reply is Done,
        ProvisionPhase::Restarting(_) => reply is Done,
        ProvisionPhase::Naming { .. } => reply is NameTaken,
        ProvisionPhase::PreparingNewDir { .. } => reply is Done,
        ProvisionPhase::Creating { .. } => reply is Created,
        ProvisionPhase::StartingNew { .. } => reply is Done,
        ProvisionPhase::Finished => false,
    }
}

/// The container that the state records for a workspace, if it records one
/// with an id.
pub open spec fn recorded_container(store: StateManager, github_user: Seq<char>, project: Seq<char>) -> Option<
    String,
> {
    let k = workspace_key(github_user, project);
    if store.records().dom().contains(k) {
        store.records()[k].container_id
    } else {
        None
    }
}

/// The gateway's dealings with the container engine.
#[derive(Debug, Clone)]
pub struct ContainerManager {
    pub config: GatewayConfig,
}

impl ContainerManager {
    /// The manager for the given settings.
    pub fn new(config: GatewayConfig) -> (r: Self)
        ensures
            r.config == config,
    {
        ContainerManager { config }
    }

    /// Begins to find or create the sandbox of a workspace: first its
    /// directory is prepared.
    pub fn get_or_create_container(&self, github_user: &str, project: &str, now: Timestamp) -> (r: (
        Provisioning,
        ProvisionAction,
    ))
        ensures
            r.0.github_user@ == github_user@,
            r.0.project@ == project@,
            r.0.workspace_path@ == workspace_dir(self.config.workspace_root@, github_user@, project@),
            r.0.created_at == now,
            r.0.phase is PreparingDir,
            r.1 matches ProvisionAction::PrepareDir(p) && p@ == r.0.workspace_path@,
    {
        let path = self.config.workspace_path(github_user, project);
        let run = Provisioning {
            github_user: String::from_str(github_user),
            project: String::from_str(project),
            workspace_path: path.clone(),
            created_at: now,
            phase: ProvisionPhase::PreparingDir,
        };
        (run, ProvisionAction::PrepareDir(path))
    }

    /// Begins the creation of a new container: the first name is looked up.
    fn begin_create(&self, run: &mut Provisioning, now: Timestamp) -> (r: ProvisionAction)
        ensures
            final(run).github_user == old(run).github_user,
            final(run).project == old(run).project,
            final(run).workspace_path == old(run).workspace_path,
            created_begun(*old(run), *final(run), r, now),
    {
        match utc_date(now.secs) {
            None => {
                run.phase = ProvisionPhase::Finished;
                ProvisionAction::Fail(ProvisionError::DateOutOfRange)
            },
            Some(date) => {
                let base = name_with_date(
                    run.project.as_str(),
                    run.github_user.as_str(),
                    date.as_str(),
                );
                let first = name_candidate(base.as_str(), 0);
                run.created_at = now;
                run.phase = ProvisionPhase::Naming { base, attempt: 0 };
                ProvisionAction::LookupName(first)
            },
        }
    }

    /// The engine has replied. The result is the next request, or the end:
    /// the sandbox's id, or the reason why there is none.
    ///
    /// A recorded container that still exists is reused and made to run.
    /// Without one, a container is created under the first free name among
    /// `<project>-<identity>-<date>` and the same with `-1` to `-100`, is
    /// started, and is recorded in the state.
    pub fn provision_step(
        &self,
        run: &mut Provisioning,
        store: &mut StateManager,
        reply: EngineReply,
        now: Timestamp,
    ) -> (r: ProvisionAction)
        requires
            old(store).well_formed(),
        ensures
            final(store).well_formed(),
            final(store).bindings() == old(store).bindings(),
            final(run).github_user == old(run).github_user,
            final(run).project == old(run).project,
            final(run).workspace_path == old(run).workspace_path,
            existing_step(old(run).phase, reply) matches Some((phase, action)) ==> {
                &&& final(run).phase == phase
                &&& r == action
                &&& final(store).records() == old(store).records()
            },
            !(old(run).phase is StartingNew && reply is Done) ==> final(store).records() == old(
                store,
            ).records(),
            old(run).phase is PreparingDir && reply is Done ==> match recorded_container(
                *old(store),
                old(run).github_user@,
                old(run).project@,
            ) {
                Some(id) => final(run).phase == ProvisionPhase::Probing(id) && r
                    == ProvisionAction::Inspect(id),
                None => created_begun(*old(run), *final(run), r, now),
            },
            old(run).phase is Probing && reply is NotFound ==> created_begun(
                *old(run),
                *final(run),
                r,
                now,
            ),
            old(run).phase matches ProvisionPhase::Naming { base, attempt } ==> match reply {
                EngineReply::NameTaken(false) => {
                    &&& final(run).phase matches ProvisionPhase::PreparingNewDir { name }
                    &&& name@ == candidate_name(base@, attempt)
                    &&& r matches ProvisionAction::PrepareDir(p)
                    &&& p@ == old(run).workspace_path@
                },
                EngineReply::NameTaken(true) => if attempt < NAME_ATTEMPTS_MAX {
                    &&& final(run).phase matches ProvisionPhase::Naming { base: b, attempt: a }
                    &&& b == base
                    &&& a == attempt + 1
                    &&& r matches ProvisionAction::LookupName(n)
                    &&& n@ == candidate_name(base@, (attempt + 1) as u32)
                } else {
                    &&& final(run).phase is Finished
                    &&& r matches ProvisionAction::Fail(ProvisionError::NoFreeName)
                },
                EngineReply::Failed(m) => r matches ProvisionAction::Fail(
                    ProvisionError::Engine(e),
                ) && e == m,
                _ => r matches ProvisionAction::Fail(ProvisionError::Protocol),
            },
            old(run).phase matches ProvisionPhase::PreparingNewDir { name } ==> reply is Done
                ==> match r {
                ProvisionAction::Create(spec) => {
                    &&& final(run).phase == (ProvisionPhase::Creating { name })
                    &&& describes_sandbox(
                        spec,
                        self.config,
                        old(run).github_user@,
                        old(run).project@,
                        name@,
                        old(run).workspace_path@,
                    )
                },
                ProvisionAction::Fail(ProvisionError::MemoryLimit(e)) => {
                    self.config.container_security.memory_limit matches Some(m)
                        && memory_limit_value(m@) == Err::<int, _>(e)
                },
                _ => false,
            },
            old(run).phase matches ProvisionPhase::Creating { name } ==> match reply {
                EngineReply::Created(id) => final(run).phase == (ProvisionPhase::StartingNew {
                    name,
                    id,
                }) && r == ProvisionAction::Start(id),
                EngineReply::Failed(m) => r matches ProvisionAction::Fail(
                    ProvisionError::Engine(e),
                ) && e == m,
                _ => r matches ProvisionAction::Fail(ProvisionError::Protocol),
            },
            old(run).phase matches ProvisionPhase::StartingNew { name, id } ==> reply is Done ==> {
                &&& final(run).phase is Finished
                &&& r == ProvisionAction::Done(id)
                &&& final(store).records() == old(store).records().insert(
                    workspace_key(old(run).github_user@, old(run).project@),
                    WorkspaceInfo {
                        github_user: old(run).github_user,
                        project: old(run).project,
                        container_name: name,
                        container_id: Some(id),
                        created_at: old(run).created_at,
                        host_workspace_path: old(run).workspace_path,
                    },
                )
            },
            old(run).phase is Finished ==> r matches ProvisionAction::Fail(
                ProvisionError::Protocol,
            ),
            !(old(run).phase is Finished) ==> match reply {
                EngineReply::Failed(m) => if prepares_directory(old(run).phase) {
                    r == ProvisionAction::Fail(ProvisionError::Directory(m))
                } else {
                    r == ProvisionAction::Fail(ProvisionError::Engine(m))
                },
                _ => !answers(old(run).phase, reply) ==> r == ProvisionAction::Fail(
                    ProvisionError::Protocol,
                ),
            },
            r is Done || r is Fail ==> final(run).phase is Finished,
    {
        let phase = run.phase.clone_phase();
        match phase {
            ProvisionPhase::PreparingDir => match reply {
                EngineReply::Done => {
                    let found = store.get_workspace(run.github_user.as_str(), run.project.as_str());
                    let id = match found {
                        Some(w) => w.container_id,
                        None => None,
                    };
                    match id {
                        Some(id) => {
                            run.phase = ProvisionPhase::Probing(id.clone());
                            ProvisionAction::Inspect(id)
                        },
                        None => self.begin_create(run, now),
                    }
                },
                EngineReply::Failed(m) => {
                    run.phase = ProvisionPhase::Finished;
                    ProvisionAction::Fail(ProvisionError::Directory(m))
                },
                _ => {
                    run.phase = ProvisionPhase::Finished;
                    ProvisionAction::Fail(ProvisionError::Protocol)
                },
            },
            ProvisionPhase::Probing(id) => match reply {
                EngineReply::Probe(_) => {
                    run.phase = ProvisionPhase::CheckingState(id.clone());
                    ProvisionAction::Inspect(id)
                },
                EngineReply::NotFound => self.begin_create(run, now),
                EngineReply::Failed(m) => {
                    run.phase = ProvisionPhase::Finished;
                    ProvisionAction::Fail(ProvisionError::Engine(m))
                },
                _ => {
                    run.phase = ProvisionPhase::Finished;
                    ProvisionAction::Fail(ProvisionError::Protocol)
                },
            },
            ProvisionPhase::CheckingState(id) => match reply {
                EngineReply::Probe(p) => {
                    let running = match p.running {
                        Some(b) => b,
                        None => false,
                    };
                    let paused = match p.paused {
                        Some(b) => b,
                        None => false,
                    };
                    if paused {
                        run.phase = ProvisionPhase::Unpausing(id.clone(), !running);
                        ProvisionAction::Unpause(id)
                    } else if !running {
                        run.phase = ProvisionPhase::Restarting(id.clone());
                        ProvisionAction::Start(id)
                    } else {
                        run.phase = ProvisionPhase::Finished;
                        ProvisionAction::Done(id)
                    }
                },
                EngineReply::Failed(m) => {
                    run.phase = ProvisionPhase::Finished;
                    ProvisionAction::Fail(ProvisionError::Engine(m))
                },
                _ => {
                    run.phase = ProvisionPhase::Finished;
                    ProvisionAction::Fail(ProvisionError::Protocol)
                },
            },
            ProvisionPhase::Unpausing(id, needs_start) => match reply {
                EngineReply::Done => {
                    if needs_start {
                        run.phase = ProvisionPhase::Restarting(id.clone());
                        ProvisionAction::Start(id)
                    } else {
                        run.phase = ProvisionPhase::Finished;
                        ProvisionAction::Done(id)
                    }
                },
                EngineReply::Failed(m) => {
                    run.phase = ProvisionPhase::Finished;
                    ProvisionAction::Fail(ProvisionError::Engine(m))
                },
                _ => {
                    run.phase = ProvisionPhase::Finished;
                    ProvisionAction::Fail(ProvisionError::Protocol)
                },
            },
            ProvisionPhase::Restarting(id) => match reply {
                EngineReply::Done => {
                    run.phase = ProvisionPhase::Finished;
                    ProvisionAction::Done(id)
                },
                EngineReply::Failed(m) => {
                    run.phase = ProvisionPhase::Finished;
                    ProvisionAction::Fail(ProvisionError::Engine(m))
                },
                _ => {
                    run.phase = ProvisionPhase::Finished;
                    ProvisionAction::Fail(ProvisionError::Protocol)
                },
            },
            ProvisionPhase::Naming { base, attempt } => match reply {
                EngineReply::NameTaken(false) => {
                    let name = name_candidate(base.as_str(), attempt);
                    run.phase = ProvisionPhase::PreparingNewDir { name };
                    ProvisionAction::PrepareDir(run.workspace_path.clone())
                },
                EngineReply::NameTaken(true) => {
                    if attempt < NAME_ATTEMPTS_MAX {
                        let next = name_candidate(base.as_str(), attempt + 1);
                        run.phase = ProvisionPhase::Naming { base, attempt: attempt + 1 };
                        ProvisionAction::LookupName(next)
                    } else {
                        run.phase = ProvisionPhase::Finished;
                        ProvisionAction::Fail(ProvisionError::NoFreeName)
                    }
                },
                EngineReply::Failed(m) => {
                    run.phase = ProvisionPhase::Finished;
                    ProvisionAction::Fail(ProvisionError::Engine(m))
                },
                _ => {
                    run.phase = ProvisionPhase::Finished;
                    ProvisionAction::Fail(ProvisionError::Protocol)
                },
            },
            ProvisionPhase::PreparingNewDir { name } => match reply {
                EngineReply::Done => {
                    match build_container_spec(
                        &self.config,
                        run.github_user.as_str(),
                        run.project.as_str(),
                        name.as_str(),
                        run.workspace_path.as_str(),
                    ) {
                        Err(e) => {
                            run.phase = ProvisionPhase::Finished;
                            ProvisionAction::Fail(ProvisionError::MemoryLimit(e))
                        },
                        Ok(spec) => {
                            run.phase = ProvisionPhase::Creating { name };
                            ProvisionAction::Create(spec)
                        },
                    }
                },
                EngineReply::Failed(m) => {
                    run.phase = ProvisionPhase::Finished;
                    ProvisionAction::Fail(ProvisionError::Directory(m))
                },
                _ => {
                    run.phase = ProvisionPhase::Finished;
                    ProvisionAction::Fail(ProvisionError::Protocol)
                },
            },
            ProvisionPhase::Creating { name } => match reply {
                EngineReply::Created(id) => {
                    run.phase = ProvisionPhase::StartingNew { name, id: id.clone() };
                    ProvisionAction::Start(id)
                },
                EngineReply::Failed(m) => {
                    run.phase = ProvisionPhase::Finished;
                    ProvisionAction::Fail(ProvisionError::Engine(m))
                },
                _ => {
                    run.phase = ProvisionPhase::Finished;
                    ProvisionAction::Fail(ProvisionError::Protocol)
                },
            },
            ProvisionPhase::StartingNew { name, id } => match reply {
                EngineReply::Done => {
                    store.set_workspace(
                        WorkspaceInfo {
                            github_user: run.github_user.clone(),
                            project: run.project.clone(),
                            container_name: name,
                            container_id: Some(id.clone()),
                            created_at: run.created_at,
                            host_workspace_path: run.workspace_path.clone(),
                        },
                    );
                    run.phase = ProvisionPhase::Finished;
                    ProvisionAction::Done(id)
                },
                EngineReply::Failed(m) => {
                    run.phase = ProvisionPhase::Finished;
                    ProvisionAction::Fail(ProvisionError::Engine(m))
                },
                _ => {
                    run.phase = ProvisionPhase::Finished;
                    ProvisionAction::Fail(ProvisionError::Protocol)
                },
            },
            ProvisionPhase::Finished => ProvisionAction::Fail(ProvisionError::Protocol),
        }
    }

    /// The workspaces of an identity.
    pub fn list_workspaces(&self, store: &StateManager, github_user: &str) -> (r: Vec<
        WorkspaceInfo,
    >)
        ensures
            r@ == crate::state::records_of(store.record_list(), github_user@),
    {
        store.list_workspaces(github_user)
    }

    /// The record of a workspace.
    pub fn get_workspace(&self, store: &StateManager, github_user: &str, project: &str) -> (r:
        Option<WorkspaceInfo>)
        requires
            store.well_formed(),
        ensures
            match r {
                Some(w) => store.records().dom().contains(workspace_key(github_user@, project@))
                    && w == store.records()[workspace_key(github_user@, project@)],
                None => !store.records().dom().contains(workspace_key(github_user@, project@)),
            },
    {
        store.get_workspace(github_user, project)
    }

    /// The address of a container: the one that the engine gives for the
    /// container itself, or else the one on the bridge network; an empty
    /// address counts as none.
    pub fn get_container_ip(&self, primary: Option<&str>, bridge: Option<&str>) -> (r: Option<
        String,
    >)
        ensures
            match r {
                Some(ip) => ip@.len() > 0 && (match primary {
                    Some(p) if p@.len() > 0 => ip@ == p@,
                    _ => bridge matches Some(b) && ip@ == b@,
                }),
                None => !(primary matches Some(p) && p@.len() > 0) && !(bridge matches Some(b)
                    && b@.len() > 0),
            },
    {
        match primary {
            Some(p) => {
                if p.unicode_len() > 0 {
                    return Some(String::from_str(p));
                }
            },
            None => {},
        }
        match bridge {
            Some(b) => {
                if b.unicode_len() > 0 {
                    return Some(String::from_str(b));
                }
            },
            None => {},
        }
        None
    }
}

/// The creation of a new container has begun, or has failed for want of a
/// date: the first name, `<project>-<identity>-<date>`, is looked up.
pub open spec fn created_begun(
    before: Provisioning,
    after: Provisioning,
    action: ProvisionAction,
    now: Timestamp,
) -> bool {
    match spec_utc_date(now.secs as int) {
        None => after.phase is Finished && action matches ProvisionAction::Fail(
            ProvisionError::DateOutOfRange,
        ),
        Some(date) => {
            &&& after.created_at == now
            &&& after.phase matches ProvisionPhase::Naming { base, attempt }
            &&& attempt == 0
            &&& base@ == base_name(before.project@, before.github_user@, date)
            &&& action matches ProvisionAction::LookupName(n)
            &&& n@ == base@
        },
    }
}

impl ProvisionPhase {
    /// A copy of the phase.
    pub fn clone_phase(&self) -> (r: Self)
        ensures
            r == *self,
    {
        match self {
            ProvisionPhase::PreparingDir => ProvisionPhase::PreparingDir,
            ProvisionPhase::Probing(id) => ProvisionPhase::Probing(id.clone()),
            ProvisionPhase::CheckingState(id) => ProvisionPhase::CheckingState(id.clone()),
            ProvisionPhase::Unpausing(id, b) => ProvisionPhase::Unpausing(id.clone(), *b),
            ProvisionPhase::Restarting(id) => ProvisionPhase::Restarting(id.clone()),
            ProvisionPhase::Naming { base, attempt } => ProvisionPhase::Naming {
                base: base.clone(),
                attempt: *attempt,
            },
            ProvisionPhase::PreparingNewDir { name } => ProvisionPhase::PreparingNewDir {
                name: name.clone(),
            },
            ProvisionPhase::Creating { name } => ProvisionPhase::Creating { name: name.clone() },
            ProvisionPhase::StartingNew { name, id } => ProvisionPhase::StartingNew {
                name: name.clone(),
                id: id.clone(),
            },
            ProvisionPhase::Finished => ProvisionPhase::Finished,
        }
    }
}

} // verus!

verus! {

/// A container that carries the gateway's label, with the workspace that
/// its labels name.
#[derive(Debug, Clone)]
pub struct LabeledContainer {
    pub id: Option<String>,
    pub github_user: Option<String>,
    pub project: Option<String>,
}

/// What came back from a request made while destroying a workspace.
#[derive(Debug, Clone)]
pub enum DestroyReply {
    /// The containers that carry the gateway's label.
    Labeled(Vec<LabeledContainer>),
    /// The request succeeded.
    Done,
    /// There is no such container.
    NotFound,
    /// The request failed, for this reason.
    Failed(String),
    /// Whether the directory exists.
    DirExists(bool),
}

/// The next request while destroying a workspace, or the end.
#[derive(Debug)]
pub enum DestroyAction {
    /// List the containers, stopped ones too, that carry the label
    /// `agentman.managed=true`.
    ListLabeled,
    Stop { target: String, timeout_secs: u32 },
    Remove { target: String, force: bool, volumes: bool, link: bool },
    /// Tell whether this directory exists.
    CheckDir(String),
    /// Delete this directory with all that it holds.
    DeleteDir(String),
    /// The end: the report, or the reason of the failure.
    Finish(Result<DestroyResult, String>),
}

/// Where the destruction stands: which reply is awaited.
#[derive(Debug, Clone, Copy, PartialEq, Eq, Structural)]
pub enum DestroyPhase {
    Listing,
    /// The target with this index is being stopped.
    Stopping(usize),
    /// The target with this index is being removed.
    Removing(usize),
    CheckingDir,
    DeletingDir,
    Finished,
}

/// One run of destroying a workspace.
#[derive(Debug, Clone)]
pub struct Destroying {
    pub opts: DestroyOptions,
    pub github_user: String,
    pub project: String,
    pub workspace_path: String,
    /// The containers to remove, by id or name.
    pub targets: Vec<String>,
    pub removed: Vec<String>,
    pub warnings: Vec<String>,
    /// The workspace directory was deleted.
    pub workspace_deleted: bool,
    /// The run is a dry one and has found the workspace directory, which a
    /// run in earnest would delete.
    pub workspace_would_be_deleted: bool,
    pub phase: DestroyPhase,
}

/// The grace given to a container that is stopped, in seconds.
pub const STOP_TIMEOUT_SECS: u32 = 10;

/// The label by which the gateway knows its containers.
pub const MANAGED_LABEL: &'static str = "agentman.managed=true";

/// A labelled container belongs to the workspace and has an id.
pub open spec fn is_of_workspace(c: LabeledContainer, github_user: Seq<char>, project: Seq<char>) -> bool {
    opt_view(c.github_user) == Some(github_user) && opt_view(c.project) == Some(project) && c.id
        is Some
}

/// The ids of the labelled containers of a workspace.
pub open spec fn labeled_ids(list: Seq<LabeledContainer>, github_user: Seq<char>, project: Seq<char>) -> Seq<
    Seq<char>,
>
    decreases list.len(),
{
    if list.len() == 0 {
        Seq::empty()
    } else {
        let head = labeled_ids(list.drop_last(), github_user, project);
        if is_of_workspace(list.last(), github_user, project) {
            head.push(list.last().id->0@)
        } else {
            head
        }
    }
}

/// The containers that the state names for a workspace: the recorded id, if
/// there is one, and the recorded name.
pub open spec fn recorded_targets(store: StateManager, github_user: Seq<char>, project: Seq<char>) -> Seq<
    Seq<char>,
> {
    let k = workspace_key(github_user, project);
    if store.records().dom().contains(k) {
        let w = store.records()[k];
        match w.container_id {
            Some(id) => seq![id@, w.container_name@],
            None => seq![w.container_name@],
        }
    } else {
        Seq::empty()
    }
}

/// The note that a container could not be stopped.
pub open spec fn stop_warning(target: Seq<char>, reason: Seq<char>) -> Seq<char> {
    "stop container "@ + target + ": "@ + reason
}

/// The note that a container could not be removed.
pub open spec fn remove_warning(target: Seq<char>, reason: Seq<char>) -> Seq<char> {
    "remove container "@ + target + ": "@ + reason
}

/// The note that the labelled containers could not be listed.
pub open spec fn list_warning(reason: Seq<char>) -> Seq<char> {
    "failed to list labeled containers: "@ + reason
}

/// A target as a dry run lists it.
pub open spec fn dry_run_entry(target: Seq<char>) -> Seq<char> {
    target + " (dry-run)"@
}

/// The failure to delete a workspace directory.
pub open spec fn delete_failure(path: Seq<char>) -> Seq<char> {
    "Failed to delete workspace directory: "@ + path
}

impl Destroying {
    /// What stays the same throughout a run.
    pub open spec fn same_job(self, other: Self) -> bool {
        &&& self.opts == other.opts
        &&& self.github_user == other.github_user
        &&& self.project == other.project
        &&& self.workspace_path == other.workspace_path
    }

    /// The run is within its targets, and it asks for nothing that its
    /// options forbid: a dry run stops, removes and deletes nothing, and
    /// only a dry run notes what would be deleted. Until it has ended, the
    /// run has noted nothing of the workspace directory.
    pub open spec fn in_order(self) -> bool {
        &&& self.findings_fit()
        &&& self.phase is Finished || self.nothing_found()
        &&& match self.phase {
            DestroyPhase::Stopping(i) => i < self.targets@.len() && !self.opts.dry_run
                && !self.opts.force,
            DestroyPhase::Removing(i) => i < self.targets@.len() && !self.opts.dry_run,
            DestroyPhase::CheckingDir => !self.opts.keep_workspace,
            DestroyPhase::DeletingDir => !self.opts.keep_workspace && !self.opts.dry_run,
            _ => true,
        }
    }

    /// What the run has noted of the workspace directory fits its options:
    /// a directory is deleted in earnest only, and noted as one that would
    /// be deleted in a dry run only; a directory that is to be kept is
    /// neither.
    pub open spec fn findings_fit(self) -> bool {
        &&& self.workspace_deleted ==> !self.opts.dry_run && !self.opts.keep_workspace
        &&& self.workspace_would_be_deleted ==> self.opts.dry_run && !self.opts.keep_workspace
    }

    /// The run has not come to the workspace directory yet.
    pub open spec fn nothing_found(self) -> bool {
        !self.workspace_deleted && !self.workspace_would_be_deleted
    }

    /// What the run has found out about the workspace directory is the
    /// same in `self` and `other`.
    pub open spec fn same_directory_findings(self, other: Self) -> bool {
        &&& self.workspace_deleted == other.workspace_deleted
        &&& self.workspace_would_be_deleted == other.workspace_would_be_deleted
    }

    /// The request that removes the target with index `i`.
    pub open spec fn removal(self, i: int, action: DestroyAction) -> bool {
        &&& action matches DestroyAction::Remove { target, force, volumes, link }
        &&& target == self.targets@[i]
        &&& force == self.opts.force
        &&& volumes
        &&& !link
    }

    /// What follows once the targets before index `i` are dealt with: the
    /// next target is stopped, or removed at once where force is used;
    /// after the last one, the workspace directory is looked at, unless it
    /// is to be kept.
    pub open spec fn proceeds_from(self, i: int, after: Self, action: DestroyAction) -> bool {
        if i < self.targets@.len() {
            if self.opts.force {
                after.phase == DestroyPhase::Removing(i as usize) && self.removal(i, action)
            } else {
                &&& after.phase == DestroyPhase::Stopping(i as usize)
                &&& action matches DestroyAction::Stop { target, timeout_secs }
                &&& target == self.targets@[i]
                &&& timeout_secs == STOP_TIMEOUT_SECS
            }
        } else {
            after.looks_at_directory(action)
        }
    }

    /// The workspace directory is looked at, or the run ends with its
    /// report where the directory is to be kept.
    pub open spec fn looks_at_directory(self, action: DestroyAction) -> bool {
        if self.opts.keep_workspace {
            self.phase is Finished && action matches DestroyAction::Finish(Ok(_))
        } else {
            &&& self.phase is CheckingDir
            &&& action matches DestroyAction::CheckDir(p)
            &&& p == self.workspace_path
        }
    }

    /// The report with which the run ends.
    pub open spec fn reports(self, action: DestroyAction, state_entry_deleted: bool) -> bool {
        &&& action matches DestroyAction::Finish(Ok(res))
        &&& res.removed_containers@ == self.removed@
        &&& res.workspace_path == self.workspace_path
        &&& res.dry_run == self.opts.dry_run
        &&& res.workspace_deleted == self.workspace_deleted
        &&& res.workspace_would_be_deleted == self.workspace_would_be_deleted
        &&& res.state_entry_deleted == state_entry_deleted
        &&& res.warnings@ == self.warnings@
    }
}

fn message2(a: &str, b: &str) -> (r: String)
    ensures
        r@ == a@ + b@,
{
    let mut out = String::from_str(a);
    out.append(b);
    out
}

fn message4(a: &str, b: &str, c: &str, d: &str) -> (r: String)
    ensures
        r@ == a@ + b@ + c@ + d@,
{
    let mut out = String::from_str(a);
    out.append(b);
    out.append(c);
    out.append(d);
    out
}

/// The ids of the labelled containers of a workspace.
pub fn list_labeled_workspace_containers(
    list: &Vec<LabeledContainer>,
    github_user: &str,
    project: &str,
) -> (r: Vec<String>)
    ensures
        views(r@) == labeled_ids(list@, github_user@, project@),
{
    let mut out: Vec<String> = Vec::new();
    let mut i: usize = 0;
    assert(list@.take(0) =~= Seq::<LabeledContainer>::empty());
    assert(views(out@) =~= Seq::<Seq<char>>::empty());
    while i < list.len()
        invariant
            i <= list.len(),
            views(out@) == labeled_ids(list@.take(i as int), github_user@, project@),
        decreases list.len() - i,
    {
        let c = &list[i];
        proof {
            let t = list@.take(i as int + 1);
            assert(t.drop_last() == list@.take(i as int));
            assert(t.last() == *c);
        }
        let user_ok = match &c.github_user {
            Some(u) => str_eq(u.as_str(), github_user),
            None => false,
        };
        let project_ok = match &c.project {
            Some(p) => str_eq(p.as_str(), project),
            None => false,
        };
        if user_ok && project_ok {
            match &c.id {
                Some(id) => {
                    let ghost before = out@;
                    out.push(id.clone());
                    assert(views(out@) =~= views(before).push(id@));
                },
                None => {},
            }
        }
        i += 1;
    }
    assert(list@.take(list.len() as int) == list@);
    out
}

impl ContainerManager {
    /// Begins to destroy a workspace: the containers that the state names
    /// are noted, and the labelled containers are asked for.
    pub fn destroy_workspace(
        &self,
        store: &StateManager,
        github_user: &str,
        project: &str,
        opts: DestroyOptions,
    ) -> (r: (Destroying, DestroyAction))
        requires
            store.well_formed(),
        ensures
            r.0.opts == opts,
            r.0.github_user@ == github_user@,
            r.0.project@ == project@,
            r.0.workspace_path@ == workspace_dir(self.config.workspace_root@, github_user@, project@),
            views(r.0.targets@) == recorded_targets(*store, github_user@, project@),
            r.0.removed@.len() == 0,
            r.0.warnings@.len() == 0,
            !r.0.workspace_deleted,
            !r.0.workspace_would_be_deleted,
            r.0.phase is Listing,
            r.0.in_order(),
            r.1 is ListLabeled,
    {
        let mut targets: Vec<String> = Vec::new();
        match store.get_workspace(github_user, project) {
            Some(w) => {
                match w.container_id {
                    Some(id) => {
                        targets.push(id);
                    },
                    None => {},
                }
                targets.push(w.container_name);
            },
            None => {},
        }
        assert(views(targets@) =~= recorded_targets(*store, github_user@, project@));
        let run = Destroying {
            opts,
            github_user: String::from_str(github_user),
            project: String::from_str(project),
            workspace_path: self.config.workspace_path(github_user, project),
            targets,
            removed: Vec::new(),
            warnings: Vec::new(),
            workspace_deleted: false,
            workspace_would_be_deleted: false,
            phase: DestroyPhase::Listing,
        };
        (run, DestroyAction::ListLabeled)
    }

    fn finish(&self, run: &mut Destroying, store: &mut StateManager) -> (r: DestroyAction)
        requires
            old(store).well_formed(),
        ensures
            final(store).well_formed(),
            final(store).bindings() == old(store).bindings(),
            final(run).same_job(*old(run)),
            final(run).targets == old(run).targets,
            final(run).removed == old(run).removed,
            final(run).warnings == old(run).warnings,
            final(run).same_directory_findings(*old(run)),
            final(run).phase is Finished,
            ended(*old(run), *old(store), *final(store), r),
    {
        let deleted = if run.opts.dry_run {
            false
        } else {
            store.remove_workspace(run.github_user.as_str(), run.project.as_str()).is_some()
        };
        proof {
            if run.opts.dry_run {
            } else {
                let k = workspace_key(run.github_user@, run.project@);
                if !old(store).records().dom().contains(k) {
                    assert(old(store).records().remove(k) =~= old(store).records());
                }
            }
        }
        run.phase = DestroyPhase::Finished;
        DestroyAction::Finish(
            Ok(
                DestroyResult {
                    removed_containers: copy_strings(&run.removed),
                    workspace_path: run.workspace_path.clone(),
                    workspace_deleted: run.workspace_deleted,
                    workspace_would_be_deleted: run.workspace_would_be_deleted,
                    state_entry_deleted: deleted,
                    warnings: copy_strings(&run.warnings),
                    dry_run: run.opts.dry_run,
                },
            ),
        )
    }

    fn directory_stage(&self, run: &mut Destroying, store: &mut StateManager) -> (r: DestroyAction)
        requires
            old(store).well_formed(),
            old(run).nothing_found(),
        ensures
            final(store).well_formed(),
            final(store).bindings() == old(store).bindings(),
            final(run).same_job(*old(run)),
            final(run).targets == old(run).targets,
            final(run).removed == old(run).removed,
            final(run).warnings == old(run).warnings,
            final(run).same_directory_findings(*old(run)),
            final(run).looks_at_directory(r),
            final(run).in_order(),
            r is Finish ==> ended(*old(run), *old(store), *final(store), r),
            !(r is Finish) ==> final(store).records() == old(store).records(),
    {
        if run.opts.keep_workspace {
            self.finish(run, store)
        } else {
            run.phase = DestroyPhase::CheckingDir;
            DestroyAction::CheckDir(run.workspace_path.clone())
        }
    }

    fn proceed(&self, run: &mut Destroying, store: &mut StateManager, i: usize) -> (r:
        DestroyAction)
        requires
            old(store).well_formed(),
            old(run).nothing_found(),
            !old(run).opts.dry_run,
        ensures
            final(store).well_formed(),
            final(store).bindings() == old(store).bindings(),
            final(run).same_job(*old(run)),
            final(run).targets == old(run).targets,
            final(run).removed == old(run).removed,
            final(run).warnings == old(run).warnings,
            final(run).same_directory_findings(*old(run)),
            old(run).proceeds_from(i as int, *final(run), r),
            final(run).in_order(),
            r is Finish ==> ended(*old(run), *old(store), *final(store), r),
            !(r is Finish) ==> final(store).records() == old(store).records(),
    {
        if i < run.targets.len() {
            let target = run.targets[i].clone();
            if run.opts.force {
                run.phase = DestroyPhase::Removing(i);
                DestroyAction::Remove { target, force: true, volumes: true, link: false }
            } else {
                run.phase = DestroyPhase::Stopping(i);
                DestroyAction::Stop { target, timeout_secs: STOP_TIMEOUT_SECS }
            }
        } else {
            self.directory_stage(run, store)
        }
    }

    /// A reply has come while destroying a workspace. The result is the
    /// next request, or the end with the report.
    ///
    /// The targets are the containers that the state names and the
    /// labelled containers of the workspace, in order and each once. Each
    /// is stopped, unless force is used, and removed; a container that is
    /// gone already is passed over, and any other failure is noted as a
    /// warning. Then the workspace directory is deleted unless it is to be
    /// kept, and the workspace is taken out of the state; the run then ends
    /// with its report. Only a directory that cannot be deleted makes it
    /// end with a failure. A dry run asks for nothing to be changed: it
    /// lists the targets with a mark, notes that the directory would be
    /// deleted if it exists, leaves the state as it is, and ends with its
    /// report as well.
    pub fn destroy_step(&self, run: &mut Destroying, store: &mut StateManager, reply: DestroyReply) -> (r:
        DestroyAction)
        requires
            old(store).well_formed(),
            old(run).in_order(),
        ensures
            final(store).well_formed(),
            final(store).bindings() == old(store).bindings(),
            final(run).same_job(*old(run)),
            final(run).in_order(),
            old(run).opts.dry_run ==> {
                &&& r is CheckDir || r is Finish
                &&& final(store).records() == old(store).records()
            },
            r is Finish ==> final(run).phase is Finished,
            !(r matches DestroyAction::Finish(Ok(_))) ==> final(store).records() == old(
                store,
            ).records(),
            old(run).phase is Listing || old(run).phase is Stopping || old(run).phase is Removing
                ==> final(run).same_directory_findings(*old(run)),
            r matches DestroyAction::Finish(Ok(_)) ==> ended(
                *final(run),
                *old(store),
                *final(store),
                r,
            ),
            match old(run).phase {
                DestroyPhase::Listing => {
                    &&& strictly_sorted(views(final(run).targets@))
                    &&& same_strings(
                        views(final(run).targets@),
                        views(old(run).targets@) + (match reply {
                            DestroyReply::Labeled(list) => labeled_ids(
                                list@,
                                old(run).github_user@,
                                old(run).project@,
                            ),
                            _ => Seq::empty(),
                        }),
                    )
                    &&& match reply {
                        DestroyReply::Labeled(_) => final(run).warnings == old(run).warnings,
                        DestroyReply::Failed(m) => views(final(run).warnings@) == views(
                            old(run).warnings@,
                        ).push(list_warning(m@)),
                        _ => views(final(run).warnings@) == views(old(run).warnings@).push(
                            list_warning(Seq::empty()),
                        ),
                    }
                    &&& if old(run).opts.dry_run {
                        &&& views(final(run).removed@) == views(final(run).targets@).map_values(
                            |t: Seq<char>| dry_run_entry(t),
                        )
                        &&& final(run).looks_at_directory(r)
                    } else {
                        &&& final(run).removed == old(run).removed
                        &&& final(run).proceeds_from(0, *final(run), r)
                    }
                },
                DestroyPhase::Stopping(i) => {
                    &&& final(run).targets == old(run).targets
                    &&& final(run).removed == old(run).removed
                    &&& final(run).phase == DestroyPhase::Removing(i)
                    &&& old(run).removal(i as int, r)
                    &&& match reply {
                        DestroyReply::Failed(m) => views(final(run).warnings@) == views(
                            old(run).warnings@,
                        ).push(stop_warning(old(run).targets@[i as int]@, m@)),
                        _ => final(run).warnings == old(run).warnings,
                    }
                },
                DestroyPhase::Removing(i) => {
                    &&& final(run).targets == old(run).targets
                    &&& old(run).proceeds_from(i + 1, *final(run), r)
                    &&& match reply {
                        DestroyReply::Done => {
                            &&& final(run).removed@ == old(run).removed@.push(
                                old(run).targets@[i as int],
                            )
                            &&& final(run).warnings == old(run).warnings
                        },
                        DestroyReply::Failed(m) => {
                            &&& final(run).removed == old(run).removed
                            &&& views(final(run).warnings@) == views(old(run).warnings@).push(
                                remove_warning(old(run).targets@[i as int]@, m@),
                            )
                        },
                        _ => {
                            &&& final(run).removed == old(run).removed
                            &&& final(run).warnings == old(run).warnings
                        },
                    }
                },
                DestroyPhase::CheckingDir => {
                    &&& final(run).targets == old(run).targets
                    &&& final(run).removed == old(run).removed
                    &&& final(run).warnings == old(run).warnings
                    &&& !final(run).workspace_deleted
                    &&& final(run).workspace_would_be_deleted == (old(run).opts.dry_run && reply
                        == DestroyReply::DirExists(true))
                    &&& if reply == DestroyReply::DirExists(true) && !old(run).opts.dry_run {
                        &&& final(run).phase is DeletingDir
                        &&& r matches DestroyAction::DeleteDir(p)
                        &&& p == old(run).workspace_path
                    } else {
                        r matches DestroyAction::Finish(Ok(_))
                    }
                },
                DestroyPhase::DeletingDir => {
                    &&& final(run).targets == old(run).targets
                    &&& final(run).removed == old(run).removed
                    &&& final(run).warnings == old(run).warnings
                    &&& !final(run).workspace_would_be_deleted
                    &&& final(run).workspace_deleted == (reply is Done)
                    &&& match reply {
                        DestroyReply::Done => r matches DestroyAction::Finish(Ok(_)),
                        _ => {
                            &&& r matches DestroyAction::Finish(Err(e))
                            &&& e@ == delete_failure(old(run).workspace_path@)
                        },
                    }
                },
                DestroyPhase::Finished => r matches DestroyAction::Finish(Err(_)),
            },
    {
        match run.phase {
            DestroyPhase::Listing => {
                let mut all = copy_strings(&run.targets);
                match reply {
                    DestroyReply::Labeled(list) => {
                        let mut ids = list_labeled_workspace_containers(
                            &list,
                            run.github_user.as_str(),
                            run.project.as_str(),
                        );
                        let ghost a = all@;
                        let ghost b = ids@;
                        all.append(&mut ids);
                        assert(views(all@) =~= views(a) + views(b));
                    },
                    DestroyReply::Failed(m) => {
                        let ghost w = run.warnings@;
                        run.warnings.push(
                            message2("failed to list labeled containers: ", m.as_str()),
                        );
                        assert(views(run.warnings@) =~= views(w).push(list_warning(m@)));
                        assert(views(all@) =~= views(all@) + Seq::<Seq<char>>::empty());
                    },
                    _ => {
                        let ghost w = run.warnings@;
                        run.warnings.push(message2("failed to list labeled containers: ", ""));
                        proof {
                            reveal_strlit("");
                            assert(""@ =~= Seq::<char>::empty());
                            assert(views(run.warnings@) =~= views(w).push(
                                list_warning(Seq::empty()),
                            ));
                            assert(views(all@) =~= views(all@) + Seq::<Seq<char>>::empty());
                        }
                    },
                }
                run.targets = sort_dedup(&all);
                if run.opts.dry_run {
                    let mut i: usize = 0;
                    run.removed = Vec::new();
                    let ghost warned = run.warnings;
                    let ghost settled = run.targets;
                    let ghost marked = views(run.targets@).map_values(
                        |t: Seq<char>| dry_run_entry(t),
                    );
                    assert(views(run.removed@) =~= marked.take(0));
                    while i < run.targets.len()
                        invariant
                            i <= run.targets.len(),
                            run.same_job(*old(run)),
                            run.same_directory_findings(*old(run)),
                            run.warnings == warned,
                            run.targets == settled,
                            store.well_formed(),
                            *store == *old(store),
                            marked == views(run.targets@).map_values(
                                |t: Seq<char>| dry_run_entry(t),
                            ),
                            views(run.removed@) == marked.take(i as int),
                        decreases run.targets.len() - i,
                    {
                        let ghost before = run.removed@;
                        let entry = message2(run.targets[i].as_str(), " (dry-run)");
                        run.removed.push(entry);
                        proof {
                            assert(marked[i as int] == dry_run_entry(run.targets@[i as int]@));
                            assert(views(run.removed@) =~= views(before).push(entry@));
                            assert(marked.take(i as int + 1) =~= marked.take(i as int).push(
                                marked[i as int],
                            ));
                        }
                        i += 1;
                    }
                    assert(marked.take(run.targets.len() as int) =~= marked);
                    self.directory_stage(run, store)
                } else {
                    self.proceed(run, store, 0)
                }
            },
            DestroyPhase::Stopping(i) => {
                let target = run.targets[i].clone();
                match reply {
                    DestroyReply::Failed(m) => {
                        let ghost w = run.warnings@;
                        let note = message4("stop container ", target.as_str(), ": ", m.as_str());
                        run.warnings.push(note);
                        assert(views(run.warnings@) =~= views(w).push(
                            stop_warning(target@, m@),
                        ));
                    },
                    _ => {},
                }
                run.phase = DestroyPhase::Removing(i);
                DestroyAction::Remove {
                    target,
                    force: run.opts.force,
                    volumes: true,
                    link: false,
                }
            },
            DestroyPhase::Removing(i) => {
                assert(i < run.targets.len());
                let target = run.targets[i].clone();
                match reply {
                    DestroyReply::Done => {
                        run.removed.push(target);
                    },
                    DestroyReply::Failed(m) => {
                        let ghost w = run.warnings@;
                        let note = message4(
                            "remove container ",
                            target.as_str(),
                            ": ",
                            m.as_str(),
                        );
                        run.warnings.push(note);
                        assert(views(run.warnings@) =~= views(w).push(
                            remove_warning(target@, m@),
                        ));
                    },
                    _ => {},
                }
                self.proceed(run, store, i + 1)
            },
            DestroyPhase::CheckingDir => match reply {
                DestroyReply::DirExists(true) => {
                    if run.opts.dry_run {
                        run.workspace_would_be_deleted = true;
                        self.finish(run, store)
                    } else {
                        run.phase = DestroyPhase::DeletingDir;
                        DestroyAction::DeleteDir(run.workspace_path.clone())
                    }
                },
                _ => self.finish(run, store),
            },
            DestroyPhase::DeletingDir => match reply {
                DestroyReply::Done => {
                    run.workspace_deleted = true;
                    self.finish(run, store)
                },
                _ => {
                    run.phase = DestroyPhase::Finished;
                    DestroyAction::Finish(
                        Err(
                            message2(
                                "Failed to delete workspace directory: ",
                                run.workspace_path.as_str(),
                            ),
                        ),
                    )
                },
            },
            DestroyPhase::Finished => DestroyAction::Finish(Err(String::from_str("nothing to do"))),
        }
    }
}

/// The run has ended with its report: the workspace is out of the state,
/// unless the run was a dry one, and the report says whether it was in it.
pub open spec fn ended(
    run: Destroying,
    before: StateManager,
    after: StateManager,
    action: DestroyAction,
) -> bool {
    let k = workspace_key(run.github_user@, run.project@);
    if run.opts.dry_run {
        after.records() == before.records() && run.reports(action, false)
    } else {
        after.records() == before.records().remove(k) && run.reports(
            action,
            before.records().dom().contains(k),
        )
    }
}

} // verus!

verus! {

/// What the engine is told when a process is created in a container.
#[derive(Debug, Clone)]
pub struct ExecOptions {
    pub cmd: Vec<String>,
    pub attach_stdin: bool,
    pub attach_stdout: bool,
    pub attach_stderr: bool,
    pub tty: bool,
    pub env: Option<Vec<String>>,
    pub working_dir: String,
}

/// What the engine is told when a process is started.
#[derive(Debug, Clone, Copy, PartialEq, Eq, Structural)]
pub struct StartExecOptions {
    pub detach: bool,
    pub tty: bool,
}

/// What the engine is told when a process's terminal is resized.
#[derive(Debug, Clone, Copy, PartialEq, Eq, Structural)]
pub struct ResizeExecOptions {
    pub width: u16,
    pub height: u16,
}

impl ContainerManager {
    /// The options of a process in a sandbox: its three streams are
    /// attached, and it starts in `/workspace`.
    pub fn create_exec(&self, cmd: Vec<String>, tty: bool, env: Option<Vec<String>>) -> (r:
        ExecOptions)
        ensures
            r.cmd == cmd,
            r.env == env,
            r.tty == tty,
            r.attach_stdin && r.attach_stdout && r.attach_stderr,
            r.working_dir@ == crate::bridge::WORKING_DIR@,
    {
        ExecOptions {
            cmd,
            attach_stdin: true,
            attach_stdout: true,
            attach_stderr: true,
            tty,
            env,
            working_dir: crate::bridge::WORKING_DIR.to_owned(),
        }
    }

    /// The options with which a process is started: attached.
    pub fn start_exec(&self, tty: bool) -> (r: StartExecOptions)
        ensures
            r == (StartExecOptions { detach: false, tty }),
    {
        StartExecOptions { detach: false, tty }
    }

    /// The options with which a process's terminal is resized.
    pub fn resize_exec(&self, width: u16, height: u16) -> (r: ResizeExecOptions)
        ensures
            r == (ResizeExecOptions { width, height }),
    {
        ResizeExecOptions { width, height }
    }
}

} // verus!
