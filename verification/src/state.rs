//! The gateway's lasting state: which identity each key fingerprint was
//! verified for, and which container backs each workspace.
//!
//! The state is held in memory; writing it out after a change is the
//! caller's part.

use vstd::prelude::*;
use vstd::string::StringExecFns;
use crate::table::{
    distinct_keys, lemma_table_absent, lemma_table_at, lemma_table_push, lemma_table_remove,
    lemma_table_update, table,
};
use crate::text::views;

verus! {

/// A point in time: seconds since the Unix epoch, and nanoseconds within
/// the second.
#[derive(Debug, Clone, Copy, PartialEq, Eq, Structural)]
pub struct Timestamp {
    pub secs: i64,
    pub nanos: u32,
}

/// The record that a key was verified to belong to an identity.
#[derive(Debug, Clone)]
pub struct KeyCacheEntry {
    /// The identity that published the key.
    pub github_username: String,
    /// When the identity provider confirmed it.
    pub verified_at: Timestamp,
    /// The key's algorithm, such as `ssh-ed25519`.
    pub key_type: String,
}

/// A workspace and the container that backs it.
#[derive(Debug, Clone)]
pub struct WorkspaceInfo {
    pub github_user: String,
    pub project: String,
    pub container_name: String,
    /// The container's id as last seen; it may be stale.
    pub container_id: Option<String>,
    pub created_at: Timestamp,
    pub host_workspace_path: String,
}

/// A fingerprint with its binding.
#[derive(Debug, Clone)]
pub struct KeyBinding {
    pub fingerprint: String,
    pub entry: KeyCacheEntry,
}

/// The whole state as plain lists, the form in which it is stored.
#[derive(Debug, Clone)]
pub struct GatewayState {
    pub key_to_github: Vec<KeyBinding>,
    pub workspaces: Vec<WorkspaceInfo>,
}

/// The key under which the workspace of an identity and a project is filed:
/// `identity/project`.
pub open spec fn workspace_key(github_user: Seq<char>, project: Seq<char>) -> Seq<char> {
    github_user + seq!['/'] + project
}

/// A binding's key.
pub open spec fn binding_key() -> spec_fn(KeyBinding) -> Seq<char> {
    |b: KeyBinding| b.fingerprint@
}

/// A workspace record's key.
pub open spec fn record_key() -> spec_fn(WorkspaceInfo) -> Seq<char> {
    |w: WorkspaceInfo| workspace_key(w.github_user@, w.project@)
}

/// The bindings that a list spells when read in order.
pub open spec fn bindings_from(s: Seq<KeyBinding>) -> Map<Seq<char>, KeyBinding>
    decreases s.len(),
{
    if s.len() == 0 {
        Map::empty()
    } else {
        bindings_from(s.drop_last()).insert(s.last().fingerprint@, s.last())
    }
}

/// The workspace records that a list spells when read in order.
pub open spec fn records_from(s: Seq<WorkspaceInfo>) -> Map<Seq<char>, WorkspaceInfo>
    decreases s.len(),
{
    if s.len() == 0 {
        Map::empty()
    } else {
        records_from(s.drop_last()).insert(record_key()(s.last()), s.last())
    }
}

/// The records of one identity, in the order of `s`.
pub open spec fn records_of(s: Seq<WorkspaceInfo>, github_user: Seq<char>) -> Seq<WorkspaceInfo> {
    s.filter(|w: WorkspaceInfo| w.github_user@ == github_user)
}

impl KeyCacheEntry {
    /// A copy of the entry.
    pub fn duplicate(&self) -> (r: Self)
        ensures
            r == *self,
    {
        KeyCacheEntry {
            github_username: self.github_username.clone(),
            verified_at: self.verified_at,
            key_type: self.key_type.clone(),
        }
    }
}

impl WorkspaceInfo {
    /// The key under which a workspace is filed: `identity/project`.
    pub fn key(github_user: &str, project: &str) -> (r: String)
        ensures
            r@ == workspace_key(github_user@, project@),
    {
        let mut out = String::from_str(github_user);
        out.append("/");
        out.append(project);
        proof {
            reveal_strlit("/");
            assert("/"@ == seq!['/']);
        }
        out
    }

    /// A copy of the record.
    pub fn duplicate(&self) -> (r: Self)
        ensures
            r == *self,
    {
        let id = match &self.container_id {
            Some(s) => Some(s.clone()),
            None => None,
        };
        WorkspaceInfo {
            github_user: self.github_user.clone(),
            project: self.project.clone(),
            container_name: self.container_name.clone(),
            container_id: id,
            created_at: self.created_at,
            host_workspace_path: self.host_workspace_path.clone(),
        }
    }
}

/// The gateway's state with its operations.
pub struct StateManager {
    keys: Vec<KeyBinding>,
    workspaces: Vec<WorkspaceInfo>,
}

impl StateManager {
    /// No fingerprint and no workspace is filed twice. Every state that
    /// the operations hand out is of this kind.
    pub closed spec fn well_formed(self) -> bool {
        &&& distinct_keys(self.keys@, binding_key())
        &&& distinct_keys(self.workspaces@, record_key())
    }

    /// The bindings, by fingerprint.
    pub closed spec fn bindings(self) -> Map<Seq<char>, KeyBinding> {
        table(self.keys@, binding_key())
    }

    /// The workspace records, by `identity/project`.
    pub closed spec fn records(self) -> Map<Seq<char>, WorkspaceInfo> {
        table(self.workspaces@, record_key())
    }

    /// The workspace records in the order in which they are kept.
    pub closed spec fn record_list(self) -> Seq<WorkspaceInfo> {
        self.workspaces@
    }

    /// The bindings in the order in which they are kept.
    pub closed spec fn binding_list(self) -> Seq<KeyBinding> {
        self.keys@
    }

    /// The empty state.
    pub fn new() -> (r: Self)
        ensures
            r.well_formed(),
            r.bindings() == Map::<Seq<char>, KeyBinding>::empty(),
            r.records() == Map::<Seq<char>, WorkspaceInfo>::empty(),
            r.record_list().len() == 0,
            r.binding_list().len() == 0,
    {
        let r = StateManager { keys: Vec::new(), workspaces: Vec::new() };
        assert(r.bindings() =~= Map::<Seq<char>, KeyBinding>::empty());
        assert(r.records() =~= Map::<Seq<char>, WorkspaceInfo>::empty());
        r
    }

    fn find_key(&self, fingerprint: &str) -> (r: Option<usize>)
        ensures
            match r {
                Some(i) => i < self.keys.len() && self.keys@[i as int].fingerprint@
                    == fingerprint@,
                None => forall|j: int|
                    0 <= j < self.keys.len() ==> binding_key()(#[trigger] self.keys@[j])
                        != fingerprint@,
            },
    {
        let mut i: usize = 0;
        while i < self.keys.len()
            invariant
                i <= self.keys.len(),
                forall|j: int|
                    0 <= j < i ==> binding_key()(#[trigger] self.keys@[j]) != fingerprint@,
            decreases self.keys.len() - i,
        {
            if crate::text::str_eq(self.keys[i].fingerprint.as_str(), fingerprint) {
                return Some(i);
            }
            i += 1;
        }
        None
    }

    fn find_workspace(&self, key: &str) -> (r: Option<usize>)
        ensures
            match r {
                Some(i) => i < self.workspaces.len() && record_key()(self.workspaces@[i as int])
                    == key@,
                None => forall|j: int|
                    0 <= j < self.workspaces.len() ==> record_key()(#[trigger] self.workspaces@[j])
                        != key@,
            },
    {
        let mut i: usize = 0;
        while i < self.workspaces.len()
            invariant
                i <= self.workspaces.len(),
                forall|j: int|
                    0 <= j < i ==> record_key()(#[trigger] self.workspaces@[j]) != key@,
            decreases self.workspaces.len() - i,
        {
            let w = &self.workspaces[i];
            let k = WorkspaceInfo::key(w.github_user.as_str(), w.project.as_str());
            if crate::text::str_eq(k.as_str(), key) {
                return Some(i);
            }
            i += 1;
        }
        None
    }

    /// The binding of a fingerprint, if there is one.
    pub fn get_github_user(&self, fingerprint: &str) -> (r: Option<KeyCacheEntry>)
        requires
            self.well_formed(),
        ensures
            match r {
                Some(e) => self.bindings().dom().contains(fingerprint@) && e
                    == self.bindings()[fingerprint@].entry,
                None => !self.bindings().dom().contains(fingerprint@),
            },
    {
        match self.find_key(fingerprint) {
            Some(i) => {
                proof {
                    lemma_table_at(self.keys@, binding_key(), i as int);
                }
                Some(self.keys[i].entry.duplicate())
            },
            None => {
                proof {
                    lemma_table_absent(self.keys@, binding_key(), fingerprint@);
                }
                None
            },
        }
    }

    /// Binds a fingerprint, replacing an earlier binding of it.
    pub fn cache_key(&mut self, fingerprint: String, entry: KeyCacheEntry)
        requires
            old(self).well_formed(),
        ensures
            final(self).well_formed(),
            final(self).bindings() == old(self).bindings().insert(
                fingerprint@,
                KeyBinding { fingerprint, entry },
            ),
            final(self).records() == old(self).records(),
            final(self).record_list() == old(self).record_list(),
    {
        let found = self.find_key(fingerprint.as_str());
        let row = KeyBinding { fingerprint, entry };
        match found {
            Some(i) => {
                proof {
                    lemma_table_update(self.keys@, binding_key(), i as int, row);
                }
                self.keys.set(i, row);
            },
            None => {
                proof {
                    lemma_table_push(self.keys@, binding_key(), row);
                }
                self.keys.push(row);
            },
        }
    }

    /// The record of a workspace, if there is one.
    pub fn get_workspace(&self, github_user: &str, project: &str) -> (r: Option<WorkspaceInfo>)
        requires
            self.well_formed(),
        ensures
            match r {
                Some(w) => self.records().dom().contains(workspace_key(github_user@, project@))
                    && w == self.records()[workspace_key(github_user@, project@)],
                None => !self.records().dom().contains(workspace_key(github_user@, project@)),
            },
    {
        let key = WorkspaceInfo::key(github_user, project);
        match self.find_workspace(key.as_str()) {
            Some(i) => {
                proof {
                    lemma_table_at(self.workspaces@, record_key(), i as int);
                }
                Some(self.workspaces[i].duplicate())
            },
            None => {
                proof {
                    lemma_table_absent(self.workspaces@, record_key(), key@);
                }
                None
            },
        }
    }

    /// Files a workspace record under its identity and project, replacing
    /// an earlier record of that workspace.
    pub fn set_workspace(&mut self, info: WorkspaceInfo)
        requires
            old(self).well_formed(),
        ensures
            final(self).well_formed(),
            final(self).records() == old(self).records().insert(
                workspace_key(info.github_user@, info.project@),
                info,
            ),
            final(self).bindings() == old(self).bindings(),
    {
        let key = WorkspaceInfo::key(info.github_user.as_str(), info.project.as_str());
        match self.find_workspace(key.as_str()) {
            Some(i) => {
                proof {
                    lemma_table_update(self.workspaces@, record_key(), i as int, info);
                }
                self.workspaces.set(i, info);
            },
            None => {
                proof {
                    lemma_table_push(self.workspaces@, record_key(), info);
                }
                self.workspaces.push(info);
            },
        }
    }

    /// Sets the container id of a workspace's record. Without a record
    /// nothing changes.
    pub fn update_container_id(
        &mut self,
        github_user: &str,
        project: &str,
        container_id: Option<String>,
    )
        requires
            old(self).well_formed(),
        ensures
            final(self).well_formed(),
            final(self).bindings() == old(self).bindings(),
            ({
                let k = workspace_key(github_user@, project@);
                if old(self).records().dom().contains(k) {
                    let w = old(self).records()[k];
                    final(self).records() == old(self).records().insert(
                        k,
                        WorkspaceInfo { container_id, ..w },
                    )
                } else {
                    final(self).records() == old(self).records()
                }
            }),
    {
        let key = WorkspaceInfo::key(github_user, project);
        match self.find_workspace(key.as_str()) {
            Some(i) => {
                let w = self.workspaces[i].duplicate();
                let row = WorkspaceInfo { container_id, ..w };
                proof {
                    lemma_table_at(self.workspaces@, record_key(), i as int);
                    lemma_table_update(self.workspaces@, record_key(), i as int, row);
                }
                self.workspaces.set(i, row);
            },
            None => {
                proof {
                    lemma_table_absent(self.workspaces@, record_key(), key@);
                }
            },
        }
    }

    /// The workspaces of an identity.
    pub fn list_workspaces(&self, github_user: &str) -> (r: Vec<WorkspaceInfo>)
        ensures
            r@ == records_of(self.record_list(), github_user@),
    {
        let mut out: Vec<WorkspaceInfo> = Vec::new();
        let mut i: usize = 0;
        let ghost keep = |w: WorkspaceInfo| w.github_user@ == github_user@;
        proof {
            assert(self.workspaces@.take(0).filter(keep) == Seq::<WorkspaceInfo>::empty());
        }
        while i < self.workspaces.len()
            invariant
                i <= self.workspaces.len(),
                keep == |w: WorkspaceInfo| w.github_user@ == github_user@,
                out@ == self.workspaces@.take(i as int).filter(keep),
            decreases self.workspaces.len() - i,
        {
            proof {
                let t = self.workspaces@.take(i as int + 1);
                assert(t.drop_last() == self.workspaces@.take(i as int));
                reveal(Seq::filter);
            }
            if crate::text::str_eq(self.workspaces[i].github_user.as_str(), github_user) {
                out.push(self.workspaces[i].duplicate());
            }
            i += 1;
        }
        assert(self.workspaces@.take(self.workspaces.len() as int) == self.workspaces@);
        out
    }

    /// The identities that some key is bound to, each once.
    pub fn list_github_users(&self) -> (r: Vec<String>)
        ensures
            forall|i: int, j: int| 0 <= i < j < r.len() ==> r@[i]@ != r@[j]@,
            forall|u: Seq<char>|
                views(r@).contains(u) <==> exists|i: int|
                    0 <= i < self.binding_list().len()
                        && #[trigger] self.binding_list()[i].entry.github_username@ == u,
    {
        let mut out: Vec<String> = Vec::new();
        let mut i: usize = 0;
        while i < self.keys.len()
            invariant
                i <= self.keys.len(),
                forall|a: int, b: int| 0 <= a < b < out.len() ==> out@[a]@ != out@[b]@,
                forall|u: Seq<char>|
                    views(out@).contains(u) <==> exists|j: int|
                        0 <= j < i && #[trigger] self.keys@[j].entry.github_username@ == u,
            decreases self.keys.len() - i,
        {
            let name = &self.keys[i].entry.github_username;
            let mut seen = false;
            let mut k: usize = 0;
            while k < out.len()
                invariant
                    k <= out.len(),
                    seen == exists|a: int| 0 <= a < k && #[trigger] out@[a]@ == name@,
                decreases out.len() - k,
            {
                if crate::text::str_eq(out[k].as_str(), name.as_str()) {
                    seen = true;
                }
                k += 1;
            }
            let ghost before = out@;
            proof {
                assert(seen == views(before).contains(name@)) by {
                    if seen {
                        let a = choose|a: int| 0 <= a < before.len() && #[trigger] before[a]@
                            == name@;
                        assert(views(before)[a] == name@);
                    }
                    if views(before).contains(name@) {
                        let a = choose|a: int|
                            0 <= a < views(before).len() && views(before)[a] == name@;
                        assert(before[a]@ == name@);
                    }
                }
            }
            if !seen {
                out.push(name.clone());
                proof {
                    assert(views(out@) == views(before).push(name@));
                    assert forall|u: Seq<char>|
                        views(out@).contains(u) <==> (views(before).contains(u) || u
                            == name@) by {
                        if views(before).contains(u) {
                            let a = choose|a: int|
                                0 <= a < views(before).len() && views(before)[a] == u;
                            assert(views(out@)[a] == u);
                        }
                        if u == name@ {
                            assert(views(out@)[before.len() as int] == u);
                        }
                    }
                    assert forall|a: int, b: int| 0 <= a < b < out.len() implies out@[a]@
                        != out@[b]@ by {
                        if b == before.len() {
                            assert(views(before)[a] == before[a]@);
                        }
                    }
                }
            }
            proof {
                assert forall|u: Seq<char>|
                    views(out@).contains(u) <==> exists|j: int|
                        0 <= j < i + 1 && #[trigger] self.keys@[j].entry.github_username@
                            == u by {
                    if exists|j: int|
                        0 <= j < i + 1 && #[trigger] self.keys@[j].entry.github_username@ == u {
                        let j = choose|j: int|
                            0 <= j < i + 1 && #[trigger] self.keys@[j].entry.github_username@
                                == u;
                        if j < i {
                            assert(views(before).contains(u));
                        }
                    }
                    if views(out@).contains(u) {
                        if u == name@ {
                            assert(self.keys@[i as int].entry.github_username@ == u);
                        } else {
                            assert(views(before).contains(u));
                            let j = choose|j: int|
                                0 <= j < i && #[trigger] self.keys@[j].entry.github_username@
                                    == u;
                            assert(0 <= j < i + 1);
                        }
                    }
                }
            }
            i += 1;
        }
        proof {
            assert forall|u: Seq<char>|
                views(out@).contains(u) <==> exists|j: int|
                    0 <= j < self.binding_list().len()
                        && #[trigger] self.binding_list()[j].entry.github_username@ == u by {
                if views(out@).contains(u) {
                    let j = choose|j: int|
                        0 <= j < i && #[trigger] self.keys@[j].entry.github_username@ == u;
                    assert(self.binding_list()[j].entry.github_username@ == u);
                }
                if exists|j: int|
                    0 <= j < self.binding_list().len()
                        && #[trigger] self.binding_list()[j].entry.github_username@ == u {
                    let j = choose|j: int|
                        0 <= j < self.binding_list().len()
                            && #[trigger] self.binding_list()[j].entry.github_username@ == u;
                    assert(self.keys@[j].entry.github_username@ == u);
                }
            }
        }
        out
    }

    /// Takes the record of a workspace out of the state and returns it.
    pub fn remove_workspace(&mut self, github_user: &str, project: &str) -> (r: Option<
        WorkspaceInfo,
    >)
        requires
            old(self).well_formed(),
        ensures
            final(self).well_formed(),
            final(self).bindings() == old(self).bindings(),
            final(self).records() == old(self).records().remove(
                workspace_key(github_user@, project@),
            ),
            match r {
                Some(w) => old(self).records().dom().contains(
                    workspace_key(github_user@, project@),
                ) && w == old(self).records()[workspace_key(github_user@, project@)],
                None => !old(self).records().dom().contains(
                    workspace_key(github_user@, project@),
                ),
            },
    {
        let key = WorkspaceInfo::key(github_user, project);
        match self.find_workspace(key.as_str()) {
            Some(i) => {
                proof {
                    lemma_table_at(self.workspaces@, record_key(), i as int);
                    lemma_table_remove(self.workspaces@, record_key(), i as int);
                }
                Some(self.workspaces.remove(i))
            },
            None => {
                proof {
                    lemma_table_absent(self.workspaces@, record_key(), key@);
                    assert(self.records().remove(key@) =~= self.records());
                }
                None
            },
        }
    }

    /// The state as plain lists, for storing it.
    pub fn snapshot(&self) -> (r: GatewayState)
        ensures
            r.key_to_github@ == self.binding_list(),
            r.workspaces@ == self.record_list(),
    {
        let mut keys: Vec<KeyBinding> = Vec::new();
        let mut i: usize = 0;
        while i < self.keys.len()
            invariant
                i <= self.keys.len(),
                keys@ == self.keys@.take(i as int),
            decreases self.keys.len() - i,
        {
            let b = &self.keys[i];
            keys.push(KeyBinding { fingerprint: b.fingerprint.clone(), entry: b.entry.duplicate() });
            i += 1;
            assert(self.keys@.take(i as int) == self.keys@.take(i as int - 1).push(
                self.keys@[i as int - 1],
            ));
        }
        let mut workspaces: Vec<WorkspaceInfo> = Vec::new();
        let mut j: usize = 0;
        while j < self.workspaces.len()
            invariant
                j <= self.workspaces.len(),
                workspaces@ == self.workspaces@.take(j as int),
            decreases self.workspaces.len() - j,
        {
            workspaces.push(self.workspaces[j].duplicate());
            j += 1;
            assert(self.workspaces@.take(j as int) == self.workspaces@.take(j as int - 1).push(
                self.workspaces@[j as int - 1],
            ));
        }
        assert(self.keys@.take(self.keys.len() as int) == self.keys@);
        assert(self.workspaces@.take(self.workspaces.len() as int) == self.workspaces@);
        GatewayState { key_to_github: keys, workspaces }
    }

    /// The state that holds the given lists, read in order: a later entry
    /// replaces an earlier one with the same key.
    pub fn restore(state: &GatewayState) -> (r: Self)
        ensures
            r.well_formed(),
            r.bindings() == bindings_from(state.key_to_github@),
            r.records() == records_from(state.workspaces@),
    {
        let mut out = StateManager::new();
        let mut i: usize = 0;
        while i < state.key_to_github.len()
            invariant
                i <= state.key_to_github.len(),
                out.well_formed(),
                out.bindings() == bindings_from(state.key_to_github@.take(i as int)),
                out.records() == Map::<Seq<char>, WorkspaceInfo>::empty(),
            decreases state.key_to_github.len() - i,
        {
            let b = &state.key_to_github[i];
            proof {
                let t = state.key_to_github@.take(i as int + 1);
                assert(t.drop_last() == state.key_to_github@.take(i as int));
            }
            out.cache_key(b.fingerprint.clone(), b.entry.duplicate());
            i += 1;
        }
        assert(state.key_to_github@.take(i as int) == state.key_to_github@);
        let mut j: usize = 0;
        while j < state.workspaces.len()
            invariant
                j <= state.workspaces.len(),
                out.well_formed(),
                out.bindings() == bindings_from(state.key_to_github@),
                out.records() == records_from(state.workspaces@.take(j as int)),
            decreases state.workspaces.len() - j,
        {
            proof {
                let t = state.workspaces@.take(j as int + 1);
                assert(t.drop_last() == state.workspaces@.take(j as int));
            }
            out.set_workspace(state.workspaces[j].duplicate());
            j += 1;
        }
        assert(state.workspaces@.take(j as int) == state.workspaces@);
        out
    }
}

} // verus!
