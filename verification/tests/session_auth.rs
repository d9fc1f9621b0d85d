use agentman_gateway::identity::{
    compute_fingerprint_from_pubkey as fingerprint, KeyAlgorithm as Algorithm,
    KeysReply as Reply, OfferedKey as Key,
};
use agentman_gateway::session::{
    AuthReply, AuthStep, ConnectionHandler, MethodSet, VerifyStage,
};
use agentman_gateway::state::{StateManager as Store, Timestamp as Time};

const NOW: Time = Time { secs: 1706659200, nanos: 7 };

fn ed25519() -> Key {
    Key { algorithm: Algorithm::Ed25519, blob: vec![0, 0, 0, 11, 1, 2, 3, 4, 5] }
}

fn rsa() -> Key {
    Key { algorithm: Algorithm::Rsa, blob: vec![0, 0, 0, 7, 9, 9, 9] }
}

fn listing(keys: &[&Key]) -> Reply {
    let mut body = String::new();
    for k in keys {
        body.push_str(&agentman_gateway::identity::public_key_to_openssh(k));
        body.push_str(" published\n");
    }
    Reply::Answer { status: 200, body }
}

fn is_accept(step: &AuthStep) -> bool {
    matches!(step, AuthStep::Reply(AuthReply::Accept))
}

fn rejected_with(step: &AuthStep) -> Option<MethodSet> {
    match step {
        AuthStep::Reply(AuthReply::Reject { proceed_with_methods }) => *proceed_with_methods,
        other => panic!("not a rejection: {:?}", other),
    }
}

fn fetch_of(step: AuthStep) -> (String, VerifyStage) {
    match step {
        AuthStep::Fetch { identity, stage } => (identity, stage),
        other => panic!("not a fetch: {:?}", other),
    }
}

const BOTH: MethodSet = MethodSet { publickey: true, keyboard_interactive: true };

#[test]
fn first_time_auth_via_hint() {
    let mut store = Store::new();
    let mut conn = ConnectionHandler::new();
    let key = ed25519();
    let step = conn.auth_publickey_offered(&mut store, &vec![], "demo+octocat", &key, NOW);
    assert_eq!(fetch_of(step), ("octocat".to_string(), VerifyStage::Hint));
    assert_eq!(conn.project.as_deref(), Some("demo"));
    assert_eq!(conn.github_user, None);
    assert_eq!(conn.offered_key_fingerprints, vec![fingerprint(&key)]);
    let step = conn.auth_keys_fetched(
        &mut store,
        &vec![],
        VerifyStage::Hint,
        "octocat",
        &key,
        &listing(&[&rsa(), &key]),
        NOW,
    );
    assert!(is_accept(&step));
    assert_eq!(conn.github_user.as_deref(), Some("octocat"));
    let bound = store.get_github_user(&fingerprint(&key)).unwrap();
    assert_eq!(bound.github_username, "octocat");
    assert_eq!(bound.key_type, "ssh-ed25519");
    assert_eq!(bound.verified_at, NOW);
}

#[test]
fn hint_that_does_not_publish_the_key_is_refused() {
    let mut store = Store::new();
    let mut conn = ConnectionHandler::new();
    let key = ed25519();
    conn.auth_publickey_offered(&mut store, &vec![], "demo+octocat", &key, NOW);
    for reply in [
        listing(&[&rsa()]),
        Reply::Answer { status: 404, body: String::new() },
        Reply::Unreachable,
    ] {
        let step =
            conn.auth_keys_fetched(&mut store, &vec![], VerifyStage::Hint, "octocat", &key, &reply, NOW);
        assert_eq!(rejected_with(&step), None);
        assert_eq!(conn.github_user, None);
        assert!(store.get_github_user(&fingerprint(&key)).is_none());
        assert!(store.snapshot().key_to_github.is_empty());
    }
}

#[test]
fn bad_names_in_the_user_field_are_refused() {
    let mut store = Store::new();
    let mut conn = ConnectionHandler::new();
    for user in ["", "-demo", "de/mo", "de mo+octocat", "+octocat"] {
        let step = conn.auth_publickey_offered(&mut store, &vec![], user, &ed25519(), NOW);
        assert_eq!(rejected_with(&step), None);
        assert_eq!(conn.project, None);
        assert!(conn.offered_key_fingerprints.is_empty());
    }
    for user in ["demo+", "demo+-x", "demo+a--b", "demo+a_b"] {
        let step = conn.auth_publickey_offered(&mut store, &vec![], user, &ed25519(), NOW);
        assert_eq!(rejected_with(&step), None);
        assert_eq!(conn.project.as_deref(), Some("demo"));
    }
}

#[test]
fn cached_reconnect_with_reordered_keys() {
    let mut store = Store::new();
    let (a, b) = (ed25519(), rsa());
    let mut first = ConnectionHandler::new();
    let step = first.auth_publickey_offered(&mut store, &vec![], "demo+octocat", &b, NOW);
    assert_eq!(fetch_of(step).1, VerifyStage::Hint);
    let step = first.auth_keys_fetched(
        &mut store,
        &vec![],
        VerifyStage::Hint,
        "octocat",
        &b,
        &listing(&[&a]),
        NOW,
    );
    assert_eq!(rejected_with(&step), None);
    let step = first.auth_publickey_offered(&mut store, &vec![], "demo+octocat", &a, NOW);
    assert_eq!(fetch_of(step).1, VerifyStage::Hint);
    let step = first.auth_keys_fetched(
        &mut store,
        &vec![],
        VerifyStage::Hint,
        "octocat",
        &a,
        &listing(&[&a]),
        NOW,
    );
    assert!(is_accept(&step));
    for key in [&a, &b] {
        let bound = store.get_github_user(&fingerprint(key)).unwrap();
        assert_eq!(bound.github_username, "octocat");
        assert_eq!(bound.key_type, "ssh-ed25519");
    }
    for order in [[&a, &b], [&b, &a]] {
        let mut again = ConnectionHandler::new();
        let step = again.auth_publickey_offered(&mut store, &vec![], "demo", order[0], NOW);
        assert!(is_accept(&step));
        assert_eq!(again.github_user.as_deref(), Some("octocat"));
        assert_eq!(again.project.as_deref(), Some("demo"));
    }
    assert_eq!(store.snapshot().key_to_github.len(), 2);
}

#[test]
fn keyboard_interactive_fallback() {
    let mut store = Store::new();
    let mut conn = ConnectionHandler::new();
    let (a, b) = (ed25519(), rsa());
    let step = conn.auth_publickey_offered(&mut store, &vec![], "demo", &a, NOW);
    assert_eq!(rejected_with(&step), Some(BOTH));
    let step = conn.auth_publickey_offered(&mut store, &vec![], "demo", &b, NOW);
    assert_eq!(rejected_with(&step), Some(BOTH));
    match conn.auth_keyboard_interactive(None) {
        AuthReply::Partial { name, instructions, prompt, echo } => {
            assert_eq!(name, "GitHub Username");
            assert_eq!(instructions, "Enter your GitHub username to verify your SSH key:");
            assert_eq!(prompt, "GitHub username: ");
            assert!(echo);
        }
        other => panic!("unexpected {:?}", other),
    }
    match conn.auth_keyboard_interactive(Some(&vec!["octocat".to_string()])) {
        AuthReply::Reject { proceed_with_methods } => assert_eq!(
            proceed_with_methods,
            Some(MethodSet { publickey: true, keyboard_interactive: false })
        ),
        other => panic!("unexpected {:?}", other),
    }
    assert_eq!(conn.pending_github_user.as_deref(), Some("octocat"));
    let step = conn.auth_publickey_offered(&mut store, &vec![], "demo", &a, NOW);
    assert_eq!(fetch_of(step), ("octocat".to_string(), VerifyStage::Pending));
    let step = conn.auth_keys_fetched(
        &mut store,
        &vec![],
        VerifyStage::Pending,
        "octocat",
        &a,
        &listing(&[&a]),
        NOW,
    );
    assert!(is_accept(&step));
    assert_eq!(conn.github_user.as_deref(), Some("octocat"));
    assert_eq!(conn.pending_github_user, None);
    assert_eq!(store.get_github_user(&fingerprint(&a)).unwrap().github_username, "octocat");
    assert_eq!(store.get_github_user(&fingerprint(&b)).unwrap().github_username, "octocat");
}

#[test]
fn keyboard_interactive_refuses_bad_answers() {
    let mut conn = ConnectionHandler::new();
    for answers in [vec![], vec!["".to_string()], vec!["-bad".to_string()], vec!["a b".to_string()]] {
        match conn.auth_keyboard_interactive(Some(&answers)) {
            AuthReply::Reject { proceed_with_methods } => assert_eq!(proceed_with_methods, None),
            other => panic!("unexpected {:?}", other),
        }
        assert_eq!(conn.pending_github_user, None);
    }
}

#[test]
fn pending_identity_that_fails_keeps_both_methods() {
    let mut store = Store::new();
    let mut conn = ConnectionHandler::new();
    let key = ed25519();
    conn.auth_keyboard_interactive(Some(&vec!["octocat".to_string()]));
    let step = conn.auth_publickey_offered(&mut store, &vec!["hubot".to_string()], "demo+mona", &key, NOW);
    assert_eq!(fetch_of(step), ("octocat".to_string(), VerifyStage::Pending));
    let step = conn.auth_keys_fetched(
        &mut store,
        &vec![],
        VerifyStage::Pending,
        "octocat",
        &key,
        &Reply::Unreachable,
        NOW,
    );
    assert_eq!(rejected_with(&step), Some(BOTH));
    assert_eq!(conn.pending_github_user.as_deref(), Some("octocat"));
    assert!(store.snapshot().key_to_github.is_empty());
}

#[test]
fn bootstrap_identities_are_tried_in_order() {
    let mut store = Store::new();
    let mut conn = ConnectionHandler::new();
    let key = ed25519();
    let bootstrap = vec!["hubot".to_string(), "octocat".to_string(), "mona".to_string()];
    let step = conn.auth_publickey_offered(&mut store, &bootstrap, "demo", &key, NOW);
    assert_eq!(fetch_of(step), ("hubot".to_string(), VerifyStage::Bootstrap(0)));
    let step = conn.auth_keys_fetched(
        &mut store,
        &bootstrap,
        VerifyStage::Bootstrap(0),
        "hubot",
        &key,
        &listing(&[&rsa()]),
        NOW,
    );
    assert_eq!(fetch_of(step), ("octocat".to_string(), VerifyStage::Bootstrap(1)));
    let mut other = conn.clone();
    let mut other_store = Store::new();
    let step = conn.auth_keys_fetched(
        &mut store,
        &bootstrap,
        VerifyStage::Bootstrap(1),
        "octocat",
        &key,
        &listing(&[&key]),
        NOW,
    );
    assert!(is_accept(&step));
    assert_eq!(conn.github_user.as_deref(), Some("octocat"));
    assert_eq!(store.get_github_user(&fingerprint(&key)).unwrap().github_username, "octocat");
    let step = other.auth_keys_fetched(
        &mut other_store,
        &bootstrap,
        VerifyStage::Bootstrap(1),
        "octocat",
        &key,
        &Reply::Unreachable,
        NOW,
    );
    assert_eq!(fetch_of(step), ("mona".to_string(), VerifyStage::Bootstrap(2)));
    let step = other.auth_keys_fetched(
        &mut other_store,
        &bootstrap,
        VerifyStage::Bootstrap(2),
        "mona",
        &key,
        &Reply::Unreachable,
        NOW,
    );
    assert_eq!(rejected_with(&step), Some(BOTH));
    assert_eq!(other.github_user, None);
}

#[test]
fn signed_key_follows_the_offer() {
    let mut store = Store::new();
    let key = ed25519();
    let mut conn = ConnectionHandler::new();
    assert_eq!(rejected_with(&conn.auth_publickey(&key)), None);
    assert_eq!(conn.offered_key_fingerprints, vec![fingerprint(&key)]);
    conn.auth_keyboard_interactive(Some(&vec!["octocat".to_string()]));
    let step = conn.auth_publickey(&key);
    assert_eq!(fetch_of(step), ("octocat".to_string(), VerifyStage::Signed));
    assert_eq!(conn.pending_github_user, None);
    let mut failed = conn.clone();
    let step = failed.auth_keys_fetched(
        &mut store,
        &vec![],
        VerifyStage::Signed,
        "octocat",
        &key,
        &listing(&[]),
        NOW,
    );
    assert_eq!(rejected_with(&step), None);
    let step = conn.auth_keys_fetched(
        &mut store,
        &vec![],
        VerifyStage::Signed,
        "octocat",
        &key,
        &listing(&[&key]),
        NOW,
    );
    assert!(is_accept(&step));
    assert!(is_accept(&conn.auth_publickey(&rsa())));
    assert_eq!(conn.offered_key_fingerprints.len(), 2);
}

#[test]
fn a_key_bound_to_another_identity_keeps_its_binding() {
    let mut store = Store::new();
    let (a, b) = (ed25519(), rsa());
    let mut one = ConnectionHandler::new();
    one.auth_publickey_offered(&mut store, &vec![], "demo+hubot", &a, NOW);
    one.auth_keys_fetched(&mut store, &vec![], VerifyStage::Hint, "hubot", &a, &listing(&[&a]), NOW);
    let mut two = ConnectionHandler::new();
    two.auth_keyboard_interactive(Some(&vec!["octocat".to_string()]));
    let step = two.auth_publickey(&a);
    assert_eq!(fetch_of(step).0, "octocat");
    two.auth_publickey(&b);
    two.auth_keyboard_interactive(Some(&vec!["octocat".to_string()]));
    let step = two.auth_publickey_offered(&mut store, &vec![], "demo", &b, NOW);
    assert_eq!(fetch_of(step), ("octocat".to_string(), VerifyStage::Pending));
    let later = Time { secs: NOW.secs + 60, nanos: 0 };
    let step = two.auth_keys_fetched(
        &mut store,
        &vec![],
        VerifyStage::Pending,
        "octocat",
        &b,
        &listing(&[&b]),
        later,
    );
    assert!(is_accept(&step));
    assert_eq!(store.get_github_user(&fingerprint(&a)).unwrap().github_username, "hubot");
    assert_eq!(store.get_github_user(&fingerprint(&a)).unwrap().verified_at, NOW);
    let bound = store.get_github_user(&fingerprint(&b)).unwrap();
    assert_eq!(bound.github_username, "octocat");
    assert_eq!(bound.key_type, "ssh-rsa");
    assert_eq!(bound.verified_at, later);
}

#[test]
fn a_known_key_brings_the_other_offered_keys_along() {
    let mut store = Store::new();
    let (a, b) = (ed25519(), rsa());
    let mut one = ConnectionHandler::new();
    one.auth_publickey_offered(&mut store, &vec![], "demo+octocat", &a, NOW);
    one.auth_keys_fetched(&mut store, &vec![], VerifyStage::Hint, "octocat", &a, &listing(&[&a]), NOW);
    let mut two = ConnectionHandler::new();
    let step = two.auth_publickey_offered(&mut store, &vec![], "other", &b, NOW);
    assert_eq!(rejected_with(&step), Some(BOTH));
    let step = two.auth_publickey_offered(&mut store, &vec![], "other", &a, NOW);
    assert!(is_accept(&step));
    assert_eq!(two.github_user.as_deref(), Some("octocat"));
    assert_eq!(store.get_github_user(&fingerprint(&b)).unwrap().github_username, "octocat");
}
