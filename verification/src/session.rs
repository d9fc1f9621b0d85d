//! One SSH connection: what the server answers to each request of the
//! client, and what it asks of the identity provider and the container
//! engine to do so.
//!
//! The functions here decide; they perform no input or output. Where an
//! answer needs the outside world, the function returns the request to be
//! made, and a second function takes what came back.

use std::collections::HashMap;
use vstd::prelude::*;
use vstd::string::StringExecFns;
use crate::codec::{encodable, spec_base64};
use crate::identity::{
    algorithm_name, compute_fingerprint_from_pubkey, fields_verdict, fingerprint_of,
    identity_name_verdict, parse_ssh_username, project_name_verdict, public_key_base64,
    split_username, validate_github_username, validate_project_name, GitHubKeyFetcher,
    KeysReply, OfferedKey, VerifyError,
};
use crate::state::{KeyBinding, KeyCacheEntry, StateManager, Timestamp, WorkspaceInfo};
use crate::text::{contains_str, lemma_take_contains, opt_view, str_eq, views};

verus! {

/// A set of authentication methods.
#[derive(Debug, Clone, Copy, PartialEq, Eq, Structural)]
pub struct MethodSet {
    pub publickey: bool,
    pub keyboard_interactive: bool,
}

/// The server's answer to an authentication request.
#[derive(Debug, Clone)]
pub enum AuthReply {
    /// The client is authenticated.
    Accept,
    /// The attempt failed. The client may go on with the given methods;
    /// `None` leaves the choice to the server's defaults.
    Reject { proceed_with_methods: Option<MethodSet> },
    /// The server asks a question.
    Partial { name: String, instructions: String, prompt: String, echo: bool },
}

/// The point of the resolution at which the identity provider is asked.
#[derive(Debug, Clone, Copy, PartialEq, Eq, Structural)]
pub enum VerifyStage {
    /// The identity was given by keyboard-interactive.
    Pending,
    /// The identity was given in the SSH user field.
    Hint,
    /// The identity is the configured bootstrap identity with this index.
    Bootstrap(usize),
    /// The identity was given by keyboard-interactive, and the client has
    /// signed with the key.
    Signed,
}

/// What an authentication request leads to.
#[derive(Debug, Clone)]
pub enum AuthStep {
    /// The answer to the client.
    Reply(AuthReply),
    /// The key list of `identity` is to be fetched and handed to
    /// `auth_keys_fetched` together with `stage`.
    Fetch { identity: String, stage: VerifyStage },
}

/// An `AuthStep` with its texts as sequences of characters.
pub enum AuthMove {
    Accept,
    Reject(Option<MethodSet>),
    /// A question: its name, its instructions, its prompt, and whether the
    /// answer is shown as it is typed.
    Prompt(Seq<char>, Seq<char>, Seq<char>, bool),
    Fetch(Seq<char>, VerifyStage),
}

impl View for AuthStep {
    type V = AuthMove;

    open spec fn view(&self) -> AuthMove {
        match *self {
            AuthStep::Reply(AuthReply::Accept) => AuthMove::Accept,
            AuthStep::Reply(AuthReply::Reject { proceed_with_methods }) => AuthMove::Reject(
                proceed_with_methods,
            ),
            AuthStep::Reply(
                AuthReply::Partial { name, instructions, prompt, echo },
            ) => AuthMove::Prompt(name@, instructions@, prompt@, echo),
            AuthStep::Fetch { identity, stage } => AuthMove::Fetch(identity@, stage),
        }
    }
}

/// Public key and keyboard-interactive.
pub open spec fn both_methods() -> MethodSet {
    MethodSet { publickey: true, keyboard_interactive: true }
}

/// Public key alone.
pub open spec fn publickey_only() -> MethodSet {
    MethodSet { publickey: true, keyboard_interactive: false }
}

/// The terminal that a client asked for on a channel.
#[derive(Debug, Clone)]
pub struct PtyInfo {
    pub term: String,
    pub cols: u32,
    pub rows: u32,
}

/// The two kinds of channel that a process in the sandbox can serve.
#[derive(Debug, Clone, Copy, PartialEq, Eq, Structural)]
pub enum ChannelStreamKind {
    /// A shell or exec channel: the exit status is reported, and the
    /// error stream is kept apart.
    Session,
    /// A forwarded TCP connection: a plain byte stream.
    TcpForward,
}

/// A process in the sandbox that serves a channel.
#[derive(Debug, Clone)]
pub struct ExecSession {
    pub exec_id: String,
    pub tty: bool,
    /// The process still takes input from the client.
    pub stdin_open: bool,
    pub kind: ChannelStreamKind,
}

/// A remote forward as the client named it: the address it asked for and
/// the port that was bound.
#[derive(Debug, Clone)]
pub struct ForwardKey {
    pub address: String,
    pub port: u32,
}

/// The state of one connection.
#[derive(Debug, Clone)]
pub struct ConnectionHandler {
    /// The identity that the client was authenticated as.
    pub github_user: Option<String>,
    /// The project named in the SSH user field.
    pub project: Option<String>,
    /// The sandbox that the connection is bound to.
    pub container_id: Option<String>,
    /// The identity given by keyboard-interactive, for the next key.
    pub pending_github_user: Option<String>,
    /// The fingerprints of the keys offered so far, each once, in order.
    pub offered_key_fingerprints: Vec<String>,
    /// The terminals, by channel.
    pub ptys: HashMap<u32, PtyInfo>,
    /// The processes, by channel.
    pub exec_sessions: HashMap<u32, ExecSession>,
    /// The listeners of remote forwards.
    pub remote_forwards: Vec<ForwardKey>,
}

/// What the store holds after every offered fingerprint that was not bound
/// has been bound to an identity.
pub open spec fn cached_all(
    before: Map<Seq<char>, KeyBinding>,
    after: Map<Seq<char>, KeyBinding>,
    fingerprints: Seq<Seq<char>>,
    github_user: Seq<char>,
    key_type: Seq<char>,
    now: Timestamp,
) -> bool {
    &&& forall|k: Seq<char>|
        #![trigger after.dom().contains(k)]
        #![trigger before.dom().contains(k)]
        #![trigger fingerprints.contains(k)]
        after.dom().contains(k) <==> (before.dom().contains(k) || fingerprints.contains(k))
    &&& forall|k: Seq<char>|
        #![trigger after[k]]
        #![trigger before[k]]
        before.dom().contains(k) ==> after[k] == before[k]
    &&& forall|k: Seq<char>|
        !before.dom().contains(k) && fingerprints.contains(k) ==> {
            &&& (#[trigger] after[k]).fingerprint@ == k
            &&& after[k].entry.github_username@ == github_user
            &&& after[k].entry.key_type@ == key_type
            &&& after[k].entry.verified_at == now
        }
}

/// What offering a key leads to: `bound` says whether the store knows the
/// key, `pending` is the identity given by keyboard-interactive, `user` the
/// SSH user field.
pub open spec fn offer_move(
    bound: bool,
    pending: Option<Seq<char>>,
    user: Seq<char>,
    bootstrap: Seq<Seq<char>>,
) -> AuthMove {
    let (project, hint) = split_username(user);
    if project_name_verdict(project) is Err {
        AuthMove::Reject(None)
    } else if bound {
        AuthMove::Accept
    } else if pending is Some {
        AuthMove::Fetch(pending->0, VerifyStage::Pending)
    } else if hint is Some {
        if identity_name_verdict(hint->0) is Err {
            AuthMove::Reject(None)
        } else {
            AuthMove::Fetch(hint->0, VerifyStage::Hint)
        }
    } else if bootstrap.len() > 0 {
        AuthMove::Fetch(bootstrap[0], VerifyStage::Bootstrap(0))
    } else {
        AuthMove::Reject(Some(both_methods()))
    }
}

/// What follows when the identity provider did not confirm the key.
pub open spec fn unconfirmed_move(stage: VerifyStage, bootstrap: Seq<Seq<char>>) -> AuthMove {
    match stage {
        VerifyStage::Pending => AuthMove::Reject(Some(both_methods())),
        VerifyStage::Hint => AuthMove::Reject(None),
        VerifyStage::Signed => AuthMove::Reject(None),
        VerifyStage::Bootstrap(i) => if i + 1 < bootstrap.len() {
            AuthMove::Fetch(bootstrap[i + 1], VerifyStage::Bootstrap((i + 1) as usize))
        } else {
            AuthMove::Reject(Some(both_methods()))
        },
    }
}

/// The list of offered fingerprints after one more offer.
pub open spec fn offered_with(offered: Seq<Seq<char>>, fingerprint: Seq<char>) -> Seq<Seq<char>> {
    if offered.contains(fingerprint) {
        offered
    } else {
        offered.push(fingerprint)
    }
}

pub const PROMPT_NAME: &'static str = "GitHub Username";

pub const PROMPT_INSTRUCTIONS: &'static str = "Enter your GitHub username to verify your SSH key:";

pub const PROMPT_TEXT: &'static str = "GitHub username: ";

impl ConnectionHandler {
    /// The state of a connection that has just been accepted.
    pub fn new() -> (r: Self)
        ensures
            r.github_user is None,
            r.project is None,
            r.container_id is None,
            r.pending_github_user is None,
            r.offered_key_fingerprints@.len() == 0,
            r.ptys@ == Map::<u32, PtyInfo>::empty(),
            r.exec_sessions@ == Map::<u32, ExecSession>::empty(),
            r.remote_forwards@.len() == 0,
    {
        ConnectionHandler {
            github_user: None,
            project: None,
            container_id: None,
            pending_github_user: None,
            offered_key_fingerprints: Vec::new(),
            ptys: HashMap::new(),
            exec_sessions: HashMap::new(),
            remote_forwards: Vec::new(),
        }
    }

    /// The views of the offered fingerprints.
    pub open spec fn offered(self) -> Seq<Seq<char>> {
        views(self.offered_key_fingerprints@)
    }

    /// The parts of the state that authentication leaves alone are the same
    /// in `self` and `other`.
    pub open spec fn same_channels(self, other: Self) -> bool {
        &&& self.container_id == other.container_id
        &&& self.ptys == other.ptys
        &&& self.exec_sessions == other.exec_sessions
        &&& self.remote_forwards == other.remote_forwards
    }

    /// Notes a fingerprint as offered.
    fn note_offered(&mut self, fingerprint: &String)
        ensures
            final(self).offered() == offered_with(old(self).offered(), fingerprint@),
            final(self).github_user == old(self).github_user,
            final(self).project == old(self).project,
            final(self).pending_github_user == old(self).pending_github_user,
            final(self).same_channels(*old(self)),
    {
        if !contains_str(&self.offered_key_fingerprints, fingerprint.as_str()) {
            let ghost before = self.offered_key_fingerprints@;
            self.offered_key_fingerprints.push(fingerprint.clone());
            assert(views(self.offered_key_fingerprints@) == views(before).push(fingerprint@));
        }
    }

    /// Binds every offered fingerprint that is not bound yet to an
    /// identity, so that a client that offers its keys in another order
    /// next time is recognized by the first of them.
    pub fn cache_all_offered_keys(
        &self,
        store: &mut StateManager,
        github_user: &str,
        key_type: &str,
        now: Timestamp,
    )
        requires
            old(store).well_formed(),
        ensures
            final(store).well_formed(),
            final(store).records() == old(store).records(),
            cached_all(
                old(store).bindings(),
                final(store).bindings(),
                self.offered(),
                github_user@,
                key_type@,
                now,
            ),
    {
        let ghost before = store.bindings();
        let ghost fps = self.offered();
        let mut i: usize = 0;
        assert(fps.take(0) =~= Seq::<Seq<char>>::empty());
        while i < self.offered_key_fingerprints.len()
            invariant
                i <= self.offered_key_fingerprints.len(),
                fps == self.offered(),
                store.well_formed(),
                store.records() == old(store).records(),
                before == old(store).bindings(),
                cached_all(before, store.bindings(), fps.take(i as int), github_user@, key_type@, now),
            decreases self.offered_key_fingerprints.len() - i,
        {
            let fp = &self.offered_key_fingerprints[i];
            proof {
                assert(fps[i as int] == fp@);
                lemma_take_contains(fps, i as int);
            }
            let ghost cur = store.bindings();
            if store.get_github_user(fp.as_str()).is_none() {
                let entry = KeyCacheEntry {
                    github_username: String::from_str(github_user),
                    verified_at: now,
                    key_type: String::from_str(key_type),
                };
                store.cache_key(fp.clone(), entry);
                proof {
                    let after = store.bindings();
                    assert(!cur.dom().contains(fp@));
                    assert forall|k: Seq<char>| before.dom().contains(k) implies #[trigger] after[k]
                        == before[k] by {
                        assert(cur.dom().contains(k));
                        assert(k != fp@);
                        assert(cur[k] == before[k]);
                    }
                    assert forall|k: Seq<char>|
                        after.dom().contains(k) <==> (before.dom().contains(k) || fps.take(
                            i as int + 1,
                        ).contains(k)) by {
                        assert(cur.dom().contains(k) <==> (before.dom().contains(k) || fps.take(
                            i as int,
                        ).contains(k)));
                    }
                    assert forall|k: Seq<char>|
                        !before.dom().contains(k) && fps.take(i as int + 1).contains(k) implies {
                        &&& (#[trigger] after[k]).fingerprint@ == k
                        &&& after[k].entry.github_username@ == github_user@
                        &&& after[k].entry.key_type@ == key_type@
                        &&& after[k].entry.verified_at == now
                    } by {
                        if k != fp@ {
                            assert(fps.take(i as int).contains(k));
                            assert(cur[k].fingerprint@ == k);
                            assert(after[k] == cur[k]);
                        }
                    }
                }
            } else {
                proof {
                    assert(cur.dom().contains(fp@));
                    assert forall|k: Seq<char>|
                        cur.dom().contains(k) <==> (before.dom().contains(k) || fps.take(
                            i as int + 1,
                        ).contains(k)) by {
                        assert(cur.dom().contains(k) <==> (before.dom().contains(k) || fps.take(
                            i as int,
                        ).contains(k)));
                    }
                    assert forall|k: Seq<char>|
                        !before.dom().contains(k) && fps.take(i as int + 1).contains(k) implies {
                        &&& (#[trigger] cur[k]).fingerprint@ == k
                        &&& cur[k].entry.github_username@ == github_user@
                        &&& cur[k].entry.key_type@ == key_type@
                        &&& cur[k].entry.verified_at == now
                    } by {
                        assert(cur.dom().contains(k));
                        assert(fps.take(i as int).contains(k));
                    }
                }
            }
            i += 1;
        }
        assert(fps.take(fps.len() as int) == fps);
    }

    /// A client offers a public key for the SSH user `user`.
    ///
    /// The user field names the project and may name the identity. A key
    /// that the store knows is accepted at once. Otherwise the key is to be
    /// confirmed by the identity provider: for the identity given by
    /// keyboard-interactive, else for the one in the user field, else for
    /// the bootstrap identities in order. Without any of these the key is
    /// refused, and the client may go on with another key or with
    /// keyboard-interactive.
    pub fn auth_publickey_offered(
        &mut self,
        store: &mut StateManager,
        bootstrap: &Vec<String>,
        user: &str,
        key: &OfferedKey,
        now: Timestamp,
    ) -> (r: AuthStep)
        requires
            old(store).well_formed(),
        ensures
            final(store).well_formed(),
            final(store).records() == old(store).records(),
            final(self).same_channels(*old(self)),
            final(self).pending_github_user == old(self).pending_github_user,
            r@ == offer_move(
                old(store).bindings().dom().contains(fingerprint_of(key.blob@)),
                opt_view(old(self).pending_github_user),
                user@,
                views(bootstrap@),
            ),
            project_name_verdict(split_username(user@).0) is Err ==> {
                &&& *final(self) == *old(self)
                &&& final(store).bindings() == old(store).bindings()
            },
            project_name_verdict(split_username(user@).0) is Ok ==> {
                &&& opt_view(final(self).project) == Some(split_username(user@).0)
                &&& final(self).offered() == offered_with(
                    old(self).offered(),
                    fingerprint_of(key.blob@),
                )
            },
            r@ is Accept ==> {
                let known = old(store).bindings()[fingerprint_of(key.blob@)].entry;
                &&& opt_view(final(self).github_user) == Some(known.github_username@)
                &&& cached_all(
                    old(store).bindings(),
                    final(store).bindings(),
                    final(self).offered(),
                    known.github_username@,
                    known.key_type@,
                    now,
                )
            },
            !(r@ is Accept) ==> {
                &&& final(self).github_user == old(self).github_user
                &&& final(store).bindings() == old(store).bindings()
            },
    {
        let (project, hint) = parse_ssh_username(user);
        if validate_project_name(project.as_str()).is_err() {
            return AuthStep::Reply(AuthReply::Reject { proceed_with_methods: None });
        }
        self.project = Some(project);
        let fingerprint = compute_fingerprint_from_pubkey(key);
        self.note_offered(&fingerprint);
        match store.get_github_user(fingerprint.as_str()) {
            Some(known) => {
                self.cache_all_offered_keys(
                    store,
                    known.github_username.as_str(),
                    known.key_type.as_str(),
                    now,
                );
                self.github_user = Some(known.github_username);
                return AuthStep::Reply(AuthReply::Accept);
            },
            None => {},
        }
        match &self.pending_github_user {
            Some(pending) => {
                return AuthStep::Fetch { identity: pending.clone(), stage: VerifyStage::Pending };
            },
            None => {},
        }
        match hint {
            Some(h) => {
                if validate_github_username(h.as_str()).is_err() {
                    return AuthStep::Reply(AuthReply::Reject { proceed_with_methods: None });
                }
                return AuthStep::Fetch { identity: h, stage: VerifyStage::Hint };
            },
            None => {},
        }
        if bootstrap.len() > 0 {
            assert(views(bootstrap@)[0] == bootstrap@[0]@);
            return AuthStep::Fetch {
                identity: bootstrap[0].clone(),
                stage: VerifyStage::Bootstrap(0),
            };
        }
        AuthStep::Reply(
            AuthReply::Reject {
                proceed_with_methods: Some(
                    MethodSet { publickey: true, keyboard_interactive: true },
                ),
            },
        )
    }

    /// The identity provider's reply to a `Fetch` has come.
    ///
    /// Where the reply lists the key, the client is authenticated as
    /// `identity`, and every fingerprint offered on this connection that was
    /// not bound is bound to it. Where it does not, the next bootstrap
    /// identity is tried, or the key is refused; nothing is bound then.
    pub fn auth_keys_fetched(
        &mut self,
        store: &mut StateManager,
        bootstrap: &Vec<String>,
        stage: VerifyStage,
        identity: &str,
        key: &OfferedKey,
        reply: &KeysReply,
        now: Timestamp,
    ) -> (r: AuthStep)
        requires
            old(store).well_formed(),
            encodable(key.blob@.len()),
        ensures
            final(store).well_formed(),
            final(store).records() == old(store).records(),
            final(self).same_channels(*old(self)),
            final(self).project == old(self).project,
            final(self).offered_key_fingerprints == old(self).offered_key_fingerprints,
            match fields_verdict(*reply, (algorithm_name(key.algorithm), spec_base64(key.blob@))) {
                Ok(key_type) => {
                    &&& r@ is Accept
                    &&& opt_view(final(self).github_user) == Some(identity@)
                    &&& stage == VerifyStage::Pending ==> final(self).pending_github_user is None
                    &&& stage != VerifyStage::Pending ==> final(self).pending_github_user
                        == old(self).pending_github_user
                    &&& cached_all(
                        old(store).bindings(),
                        final(store).bindings(),
                        old(self).offered(),
                        identity@,
                        key_type,
                        now,
                    )
                },
                Err(_) => {
                    &&& r@ == unconfirmed_move(stage, views(bootstrap@))
                    &&& *final(self) == *old(self)
                    &&& final(store).bindings() == old(store).bindings()
                },
            },
    {
        let fetcher = GitHubKeyFetcher::new();
        let data = public_key_base64(key);
        match fetcher.verify_fields(reply, key.algorithm.name(), data.as_str()) {
            Ok(key_type) => {
                self.cache_all_offered_keys(store, identity, key_type.as_str(), now);
                self.github_user = Some(String::from_str(identity));
                match stage {
                    VerifyStage::Pending => {
                        self.pending_github_user = None;
                    },
                    _ => {},
                }
                AuthStep::Reply(AuthReply::Accept)
            },
            Err(_) => {
                let both = MethodSet { publickey: true, keyboard_interactive: true };
                match stage {
                    VerifyStage::Pending => AuthStep::Reply(
                        AuthReply::Reject { proceed_with_methods: Some(both) },
                    ),
                    VerifyStage::Hint => AuthStep::Reply(
                        AuthReply::Reject { proceed_with_methods: None },
                    ),
                    VerifyStage::Signed => AuthStep::Reply(
                        AuthReply::Reject { proceed_with_methods: None },
                    ),
                    VerifyStage::Bootstrap(i) => {
                        if i < bootstrap.len() && i + 1 < bootstrap.len() {
                            assert(views(bootstrap@)[i + 1] == bootstrap@[i + 1]@);
                            AuthStep::Fetch {
                                identity: bootstrap[i + 1].clone(),
                                stage: VerifyStage::Bootstrap(i + 1),
                            }
                        } else {
                            AuthStep::Reply(AuthReply::Reject { proceed_with_methods: Some(both) })
                        }
                    },
                }
            },
        }
    }

    /// A round of keyboard-interactive authentication.
    ///
    /// Without answers the server asks for the identity's name. With
    /// answers, the first one is taken as that name: a well-formed name is
    /// kept for the next key, and the client is told to go on with public
    /// key alone; anything else is refused.
    pub fn auth_keyboard_interactive(&mut self, response: Option<&Vec<String>>) -> (r: AuthReply)
        ensures
            final(self).same_channels(*old(self)),
            final(self).github_user == old(self).github_user,
            final(self).project == old(self).project,
            final(self).offered_key_fingerprints == old(self).offered_key_fingerprints,
            match response {
                None => {
                    &&& r matches AuthReply::Partial { name, instructions, prompt, echo }
                    &&& name@ == PROMPT_NAME@
                    &&& instructions@ == PROMPT_INSTRUCTIONS@
                    &&& prompt@ == PROMPT_TEXT@
                    &&& echo
                    &&& final(self).pending_github_user == old(self).pending_github_user
                },
                Some(answers) => if answers@.len() > 0 && identity_name_verdict(answers@[0]@)
                    is Ok {
                    &&& r matches AuthReply::Reject { proceed_with_methods }
                    &&& proceed_with_methods == Some(publickey_only())
                    &&& opt_view(final(self).pending_github_user) == Some(answers@[0]@)
                } else {
                    &&& r matches AuthReply::Reject { proceed_with_methods }
                    &&& proceed_with_methods is None
                    &&& final(self).pending_github_user == old(self).pending_github_user
                },
            },
    {
        match response {
            None => AuthReply::Partial {
                name: PROMPT_NAME.to_owned(),
                instructions: PROMPT_INSTRUCTIONS.to_owned(),
                prompt: PROMPT_TEXT.to_owned(),
                echo: true,
            },
            Some(answers) => {
                if answers.len() == 0 {
                    return AuthReply::Reject { proceed_with_methods: None };
                }
                if validate_github_username(answers[0].as_str()).is_err() {
                    return AuthReply::Reject { proceed_with_methods: None };
                }
                self.pending_github_user = Some(answers[0].clone());
                AuthReply::Reject {
                    proceed_with_methods: Some(
                        MethodSet { publickey: true, keyboard_interactive: false },
                    ),
                }
            },
        }
    }

    /// A client has signed with a public key.
    ///
    /// A client that was accepted when it offered a key is accepted. One
    /// that gave an identity by keyboard-interactive has the key confirmed
    /// for that identity, which is used up by this. Any other is refused.
    pub fn auth_publickey(&mut self, key: &OfferedKey) -> (r: AuthStep)
        ensures
            final(self).same_channels(*old(self)),
            final(self).github_user == old(self).github_user,
            final(self).project == old(self).project,
            final(self).offered() == offered_with(old(self).offered(), fingerprint_of(key.blob@)),
            old(self).github_user is Some ==> {
                &&& r@ is Accept
                &&& final(self).pending_github_user == old(self).pending_github_user
            },
            old(self).github_user is None ==> {
                &&& final(self).pending_github_user is None
                &&& match old(self).pending_github_user {
                    Some(p) => r@ == AuthMove::Fetch(p@, VerifyStage::Signed),
                    None => r@ == AuthMove::Reject(None),
                }
            },
    {
        let fingerprint = compute_fingerprint_from_pubkey(key);
        self.note_offered(&fingerprint);
        if self.github_user.is_some() {
            return AuthStep::Reply(AuthReply::Accept);
        }
        let pending = self.pending_github_user.take();
        match pending {
            Some(p) => AuthStep::Fetch { identity: p, stage: VerifyStage::Signed },
            None => AuthStep::Reply(AuthReply::Reject { proceed_with_methods: None }),
        }
    }
}

} // verus!

verus! {

/// After an authentication that succeeded, every fingerprint offered on
/// the connection is bound: one that was bound before keeps its binding,
/// and every other is bound to the identity that the client was
/// authenticated as.
pub proof fn lemma_offered_keys_are_bound(
    before: Map<Seq<char>, KeyBinding>,
    after: Map<Seq<char>, KeyBinding>,
    fingerprints: Seq<Seq<char>>,
    github_user: Seq<char>,
    key_type: Seq<char>,
    now: Timestamp,
    k: Seq<char>,
)
    requires
        cached_all(before, after, fingerprints, github_user, key_type, now),
        fingerprints.contains(k),
    ensures
        after.dom().contains(k),
        before.dom().contains(k) ==> after[k] == before[k],
        !before.dom().contains(k) ==> after[k].entry.github_username@ == github_user,
{
}

/// Where none of the offered fingerprints was bound to another identity
/// before, all of them are bound to the one identity afterwards.
pub proof fn lemma_offered_keys_share_identity(
    before: Map<Seq<char>, KeyBinding>,
    after: Map<Seq<char>, KeyBinding>,
    fingerprints: Seq<Seq<char>>,
    github_user: Seq<char>,
    key_type: Seq<char>,
    now: Timestamp,
)
    requires
        cached_all(before, after, fingerprints, github_user, key_type, now),
        forall|k: Seq<char>|
            fingerprints.contains(k) && before.dom().contains(k) ==> (
            #[trigger] before[k]).entry.github_username@ == github_user,
    ensures
        forall|k: Seq<char>|
            fingerprints.contains(k) ==> after.dom().contains(k) && (
            #[trigger] after[k]).entry.github_username@ == github_user,
{
    assert forall|k: Seq<char>| fingerprints.contains(k) implies after.dom().contains(k) && (
    #[trigger] after[k]).entry.github_username@ == github_user by {
        if before.dom().contains(k) {
            assert(after[k] == before[k]);
        }
    }
}

/// A key that the store knows is accepted when it is offered, whatever
/// else the connection has seen: the identity provider is not asked.
pub proof fn lemma_known_key_is_accepted(
    pending: Option<Seq<char>>,
    user: Seq<char>,
    bootstrap: Seq<Seq<char>>,
)
    requires
        project_name_verdict(split_username(user).0) is Ok,
    ensures
        offer_move(true, pending, user, bootstrap) is Accept,
{
}

/// After an authentication that succeeded, a client that comes back and
/// offers any of the fingerprints it had offered, in whatever order, is
/// accepted for the first of them from the store alone.
pub proof fn lemma_reconnect_needs_no_fetch(
    before: Map<Seq<char>, KeyBinding>,
    after: Map<Seq<char>, KeyBinding>,
    fingerprints: Seq<Seq<char>>,
    github_user: Seq<char>,
    key_type: Seq<char>,
    now: Timestamp,
    first: Seq<char>,
    pending: Option<Seq<char>>,
    user: Seq<char>,
    bootstrap: Seq<Seq<char>>,
)
    requires
        cached_all(before, after, fingerprints, github_user, key_type, now),
        fingerprints.contains(first),
        project_name_verdict(split_username(user).0) is Ok,
    ensures
        offer_move(after.dom().contains(first), pending, user, bootstrap) is Accept,
{
}

} // verus!
