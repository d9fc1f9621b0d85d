//! Names and keys: the syntax of the SSH user field, of project and identity
//! names, and of public-key lines; fingerprints; and the comparison of a
//! presented key with an identity's published keys.

use vstd::prelude::*;
use vstd::string::StringExecFns;
use crate::codec::{
    base64_decode, base64_nopad, base64_padded, encodable, is_base64_char, sha256, spec_base64,
    spec_base64_decode, spec_base64_nopad, spec_sha256,
};
use crate::text::{
    ascii_alnum, chars_of, find_char, is_ascii_alnum, lemma_first_index, lemma_first_index_is,
    first_index, position, split_nonblank_lines, split_whitespace, nonblank_lines, str_eq,
    string_of_range, views, words,
};

verus! {

/// Why a project or identity name is refused.
#[derive(Debug, Clone, Copy, PartialEq, Eq, Structural)]
pub enum NameError {
    /// The name has no characters.
    Empty,
    /// The name has more characters than the limit.
    TooLong,
    /// The name holds this character, which its vocabulary lacks.
    InvalidChar(char),
    /// The name begins with `.` or `-`.
    BadStart,
    /// The name ends with `-`.
    BadEnd,
    /// The name holds two hyphens in a row.
    DoubleHyphen,
}

pub const PROJECT_NAME_MAX: usize = 64;

pub const IDENTITY_NAME_MAX: usize = 39;

/// The characters of a project name.
pub open spec fn is_project_char(c: char) -> bool {
    is_ascii_alnum(c) || c == '-' || c == '_'
}

/// The characters of an identity name.
pub open spec fn is_identity_char(c: char) -> bool {
    is_ascii_alnum(c) || c == '-'
}

/// The test for lying outside the vocabulary of project names.
pub open spec fn not_project_char() -> spec_fn(char) -> bool {
    |c: char| !is_project_char(c)
}

/// The test for lying outside the vocabulary of identity names.
pub open spec fn not_identity_char() -> spec_fn(char) -> bool {
    |c: char| !is_identity_char(c)
}

/// The SSH user field read as `project` or `project+identity`: it is cut at
/// its first `+`.
pub open spec fn split_username(s: Seq<char>) -> (Seq<char>, Option<Seq<char>>) {
    let k = position(s, '+');
    if k < s.len() {
        (s.take(k), Some(s.skip(k + 1)))
    } else {
        (s, None)
    }
}

/// Reads the SSH user field.
pub fn parse_ssh_username(username: &str) -> (r: (String, Option<String>))
    ensures
        r.0@ == split_username(username@).0,
        match r.1 {
            Some(u) => split_username(username@).1 == Some(u@),
            None => split_username(username@).1 is None,
        },
{
    let v = chars_of(username);
    let k = find_char(&v, '+');
    if k < v.len() {
        let project = string_of_range(&v, 0, k);
        let identity = string_of_range(&v, k + 1, v.len());
        (project, Some(identity))
    } else {
        assert(v@.subrange(0, v.len() as int) == v@);
        (string_of_range(&v, 0, v.len()), None)
    }
}

/// The verdict on a project name: 1 to 64 characters out of letters, digits,
/// `-` and `_`, not starting with `.` or `-`.
pub open spec fn project_name_verdict(s: Seq<char>) -> Result<(), NameError> {
    let bad = first_index(s, not_project_char());
    if s.len() == 0 {
        Err(NameError::Empty)
    } else if s.len() > PROJECT_NAME_MAX {
        Err(NameError::TooLong)
    } else if bad < s.len() {
        Err(NameError::InvalidChar(s[bad]))
    } else if s[0] == '.' || s[0] == '-' {
        Err(NameError::BadStart)
    } else {
        Ok(())
    }
}

/// `s` holds two hyphens in a row.
pub open spec fn has_double_hyphen(s: Seq<char>) -> bool {
    exists|i: int| 0 <= i < s.len() - 1 && #[trigger] s[i] == '-' && s[i + 1] == '-'
}

/// The verdict on an identity name: 1 to 39 characters out of letters,
/// digits and `-`, with no hyphen at either end and no two in a row.
pub open spec fn identity_name_verdict(s: Seq<char>) -> Result<(), NameError> {
    let bad = first_index(s, not_identity_char());
    if s.len() == 0 {
        Err(NameError::Empty)
    } else if s.len() > IDENTITY_NAME_MAX {
        Err(NameError::TooLong)
    } else if bad < s.len() {
        Err(NameError::InvalidChar(s[bad]))
    } else if s[0] == '-' {
        Err(NameError::BadStart)
    } else if s.last() == '-' {
        Err(NameError::BadEnd)
    } else if has_double_hyphen(s) {
        Err(NameError::DoubleHyphen)
    } else {
        Ok(())
    }
}

/// Checks a project name.
pub fn validate_project_name(name: &str) -> (r: Result<(), NameError>)
    ensures
        r == project_name_verdict(name@),
{
    let v = chars_of(name);
    if v.len() == 0 {
        return Err(NameError::Empty);
    }
    if v.len() > PROJECT_NAME_MAX {
        return Err(NameError::TooLong);
    }
    let mut i: usize = 0;
    while i < v.len()
        invariant
            i <= v.len(),
            v@ == name@,
            0 < v.len() <= PROJECT_NAME_MAX,
            forall|j: int| 0 <= j < i ==> is_project_char(#[trigger] v@[j]),
        decreases v.len() - i,
    {
        let c = v[i];
        if !(ascii_alnum(c) || c == '-' || c == '_') {
            proof {
                lemma_first_index_is(v@, not_project_char(), i as int);
            }
            return Err(NameError::InvalidChar(c));
        }
        i += 1;
    }
    proof {
        lemma_first_index_is(v@, not_project_char(), v.len() as int);
    }
    if v[0] == '.' || v[0] == '-' {
        return Err(NameError::BadStart);
    }
    Ok(())
}

/// Checks an identity name.
pub fn validate_github_username(name: &str) -> (r: Result<(), NameError>)
    ensures
        r == identity_name_verdict(name@),
{
    let v = chars_of(name);
    if v.len() == 0 {
        return Err(NameError::Empty);
    }
    if v.len() > IDENTITY_NAME_MAX {
        return Err(NameError::TooLong);
    }
    let mut i: usize = 0;
    while i < v.len()
        invariant
            i <= v.len(),
            v@ == name@,
            0 < v.len() <= IDENTITY_NAME_MAX,
            forall|j: int| 0 <= j < i ==> is_identity_char(#[trigger] v@[j]),
        decreases v.len() - i,
    {
        let c = v[i];
        if !(ascii_alnum(c) || c == '-') {
            proof {
                lemma_first_index_is(v@, not_identity_char(), i as int);
            }
            return Err(NameError::InvalidChar(c));
        }
        i += 1;
    }
    proof {
        lemma_first_index_is(v@, not_identity_char(), v.len() as int);
    }
    if v[0] == '-' {
        return Err(NameError::BadStart);
    }
    if v[v.len() - 1] == '-' {
        return Err(NameError::BadEnd);
    }
    let mut k: usize = 0;
    while k + 1 < v.len()
        invariant
            k < v.len(),
            v@ == name@,
            0 < v.len() <= IDENTITY_NAME_MAX,
            first_index(v@, not_identity_char()) == v.len(),
            v@[0] != '-',
            v@.last() != '-',
            forall|j: int| 0 <= j < k ==> !(#[trigger] v@[j] == '-' && v@[j + 1] == '-'),
        decreases v.len() - k,
    {
        if v[k] == '-' && v[k + 1] == '-' {
            return Err(NameError::DoubleHyphen);
        }
        k += 1;
    }
    Ok(())
}

} // verus!

verus! {

/// A project name is accepted exactly when it has 1 to 64 characters, all of
/// them letters, digits, `-` or `_`, and does not start with `-`.
pub proof fn lemma_project_name_accepted(s: Seq<char>)
    ensures
        project_name_verdict(s) is Ok <==> {
            &&& 1 <= s.len() <= PROJECT_NAME_MAX
            &&& forall|i: int| 0 <= i < s.len() ==> is_project_char(#[trigger] s[i])
            &&& s[0] != '-'
        },
{
    lemma_first_index(s, not_project_char());
    let bad = first_index(s, not_project_char());
    if bad < s.len() {
        assert(!is_project_char(s[bad]));
    }
    if 1 <= s.len() && bad == s.len() {
        assert forall|i: int| 0 <= i < s.len() implies is_project_char(#[trigger] s[i]) by {
            assert(!not_project_char()(s[i]));
        }
        assert(is_project_char(s[0]));
    }
}

/// A project name is refused when it holds a `/`, a blank, a `.` or any
/// other character that is no ASCII letter, digit, `-` or `_`, and when it
/// starts with `-`.
pub proof fn lemma_project_name_refused(s: Seq<char>, i: int)
    requires
        0 <= i < s.len(),
        s[i] == '/' || s[i] == '.' || crate::text::is_whitespace(s[i]) || !is_project_char(s[i])
            || s[0] == '-',
    ensures
        project_name_verdict(s) is Err,
{
    lemma_project_name_accepted(s);
    if s[0] != '-' {
        assert(!is_project_char(s[i]));
    }
}

/// An identity name is accepted exactly when it has 1 to 39 characters, all
/// of them letters, digits or `-`, with no `-` at either end and no `--`.
pub proof fn lemma_identity_name_accepted(s: Seq<char>)
    ensures
        identity_name_verdict(s) is Ok <==> {
            &&& 1 <= s.len() <= IDENTITY_NAME_MAX
            &&& forall|i: int| 0 <= i < s.len() ==> is_identity_char(#[trigger] s[i])
            &&& s[0] != '-'
            &&& s.last() != '-'
            &&& !has_double_hyphen(s)
        },
{
    lemma_first_index(s, not_identity_char());
    let bad = first_index(s, not_identity_char());
    if bad < s.len() {
        assert(!is_identity_char(s[bad]));
    }
    if 1 <= s.len() && bad == s.len() {
        assert forall|i: int| 0 <= i < s.len() implies is_identity_char(#[trigger] s[i]) by {
            assert(!not_identity_char()(s[i]));
        }
    }
}

/// An identity name is refused when it holds a `/`, a blank, a `.`, a `_` or
/// any other character that is no ASCII letter, digit or `-`, when it starts
/// or ends with `-`, and when it holds `--`.
pub proof fn lemma_identity_name_refused(s: Seq<char>, i: int)
    requires
        0 <= i < s.len(),
        s[i] == '/' || s[i] == '.' || s[i] == '_' || crate::text::is_whitespace(s[i])
            || !is_identity_char(s[i]) || s[0] == '-' || s.last() == '-' || (i + 1 < s.len()
            && s[i] == '-' && s[i + 1] == '-'),
    ensures
        identity_name_verdict(s) is Err,
{
    lemma_identity_name_accepted(s);
    if s[0] != '-' && s.last() != '-' && !(i + 1 < s.len() && s[i] == '-' && s[i + 1] == '-') {
        assert(!is_identity_char(s[i]));
    }
}

/// A user field without `+` names a project and no identity.
pub proof fn lemma_username_without_plus(p: Seq<char>)
    requires
        !p.contains('+'),
    ensures
        split_username(p) == (p, None::<Seq<char>>),
{
    lemma_first_index(p, crate::text::is_char('+'));
    let k = position(p, '+');
    if k < p.len() {
        assert(p.contains(p[k]));
    }
}

/// Reading `p+u` gives back `p` and `u`, for every `p` without a `+`.
pub proof fn lemma_username_splits(p: Seq<char>, u: Seq<char>)
    requires
        !p.contains('+'),
    ensures
        split_username(p + seq!['+'] + u) == (p, Some(u)),
{
    let s = p + seq!['+'] + u;
    assert forall|j: int| 0 <= j < p.len() implies !crate::text::is_char('+')(#[trigger] s[j]) by {
        assert(s[j] == p[j]);
        assert(p.contains(p[j]));
    }
    assert(s[p.len() as int] == '+');
    lemma_first_index_is(s, crate::text::is_char('+'), p.len() as int);
    assert(s.take(p.len() as int) == p);
    assert(s.skip(p.len() as int + 1) == u);
}

/// Reading the user field `p+u` made of an accepted project name `p` and
/// an accepted identity name `u` gives back `p` and `u`.
pub proof fn lemma_username_round_trip(p: Seq<char>, u: Seq<char>)
    requires
        project_name_verdict(p) is Ok,
        identity_name_verdict(u) is Ok,
    ensures
        split_username(p + seq!['+'] + u) == (p, Some(u)),
{
    lemma_project_name_accepted(p);
    if p.contains('+') {
        let j = choose|j: int| 0 <= j < p.len() && p[j] == '+';
        assert(is_project_char(p[j]));
    }
    lemma_username_splits(p, u);
}

/// Why a public-key line is refused.
#[derive(Debug, Clone, Copy, PartialEq, Eq, Structural)]
pub enum KeyParseError {
    /// The line has fewer than two words.
    TooFewParts,
    /// The second word is no base64 text.
    InvalidBase64,
}

/// The algorithm name and the base64 text of a public-key line: its first
/// two words. What follows them is a comment.
pub open spec fn key_fields(line: Seq<char>) -> Option<(Seq<char>, Seq<char>)> {
    let w = words(line);
    if w.len() < 2 {
        None
    } else {
        Some((w[0], w[1]))
    }
}

/// A public-key line read in full: its two fields, the second of which must
/// decode as base64.
pub open spec fn parsed_key(line: Seq<char>) -> Result<(Seq<char>, Seq<char>), KeyParseError> {
    match key_fields(line) {
        None => Err(KeyParseError::TooFewParts),
        Some((algorithm, data)) => if spec_base64_decode(data) is Some {
            Ok((algorithm, data))
        } else {
            Err(KeyParseError::InvalidBase64)
        },
    }
}

/// The first two words of a public-key line.
pub fn split_key_fields(line: &str) -> (r: Option<(String, String)>)
    ensures
        match r {
            Some((a, d)) => key_fields(line@) == Some((a@, d@)),
            None => key_fields(line@) is None,
        },
{
    let mut w = split_whitespace(line);
    if w.len() < 2 {
        return None;
    }
    let ghost all = views(w@);
    let a = w[0].clone();
    let d = w[1].clone();
    Some((a, d))
}

/// Reads a public-key line such as `ssh-ed25519 AAAA... comment`.
pub fn parse_ssh_key(key: &str) -> (r: Result<(String, String), KeyParseError>)
    ensures
        match r {
            Ok((a, d)) => parsed_key(key@) == Ok::<_, KeyParseError>((a@, d@)),
            Err(e) => parsed_key(key@) == Err::<(Seq<char>, Seq<char>), _>(e),
        },
{
    match split_key_fields(key) {
        None => Err(KeyParseError::TooFewParts),
        Some((a, d)) => match base64_decode(d.as_str()) {
            Ok(_) => Ok((a, d)),
            Err(_) => Err(KeyParseError::InvalidBase64),
        },
    }
}

/// The marker that starts every fingerprint.
pub open spec fn fingerprint_prefix() -> Seq<char> {
    "SHA256:"@
}

/// The fingerprint of a key blob: the marker, then the unpadded base64 text
/// of the blob's SHA-256 digest.
pub open spec fn fingerprint_of(blob: Seq<u8>) -> Seq<char> {
    fingerprint_prefix() + spec_base64_nopad(spec_sha256(blob))
}

/// The fingerprint with the given digest text.
pub fn format_fingerprint(digest_text: &str) -> (r: String)
    ensures
        r@ == fingerprint_prefix() + digest_text@,
{
    let mut out = String::from_str("SHA256:");
    out.append(digest_text);
    out
}

/// The fingerprint of a key given as its wire-format bytes.
///
/// The result depends on the bytes alone. It is the marker `SHA256:` and 43
/// characters of the base64 alphabet, without padding.
pub fn compute_fingerprint_from_bytes(key_bytes: &[u8]) -> (r: String)
    ensures
        r@ == fingerprint_of(key_bytes@),
        r@.len() == fingerprint_prefix().len() + 43,
        r@.take(fingerprint_prefix().len() as int) == fingerprint_prefix(),
        forall|i: int| fingerprint_prefix().len() <= i < r@.len() ==> is_base64_char(#[trigger] r@[i]),
{
    let digest = sha256(key_bytes);
    let text = base64_nopad(digest.as_slice());
    let r = format_fingerprint(text.as_str());
    proof {
        assert(r@.take(fingerprint_prefix().len() as int) == fingerprint_prefix());
        assert forall|i: int| fingerprint_prefix().len() <= i < r@.len() implies is_base64_char(
            #[trigger] r@[i],
        ) by {
            assert(r@[i] == text@[i - fingerprint_prefix().len()]);
        }
    }
    r
}

/// The fingerprint of the key on a public-key line.
pub open spec fn line_fingerprint(line: Seq<char>) -> Result<Seq<char>, KeyParseError> {
    match parsed_key(line) {
        Err(e) => Err(e),
        Ok((_, data)) => Ok(fingerprint_of(spec_base64_decode(data)->0)),
    }
}

/// The fingerprint of the key on a public-key line, as `ssh-keygen -l`
/// prints it.
pub fn compute_fingerprint(public_key: &str) -> (r: Result<String, KeyParseError>)
    ensures
        match r {
            Ok(f) => line_fingerprint(public_key@) == Ok::<_, KeyParseError>(f@),
            Err(e) => line_fingerprint(public_key@) == Err::<Seq<char>, _>(e),
        },
{
    match split_key_fields(public_key) {
        None => Err(KeyParseError::TooFewParts),
        Some((_, d)) => match base64_decode(d.as_str()) {
            Ok(blob) => Ok(compute_fingerprint_from_bytes(blob.as_slice())),
            Err(_) => Err(KeyParseError::InvalidBase64),
        },
    }
}

} // verus!

verus! {

/// What came back from asking the identity provider for a key list.
#[derive(Debug, Clone)]
pub enum KeysReply {
    /// An HTTP answer with its status code and body.
    Answer { status: u16, body: String },
    /// No answer: the request failed or ran into its deadline.
    Unreachable,
}

/// Why no key list could be had.
#[derive(Debug, Clone, Copy, PartialEq, Eq, Structural)]
pub enum FetchError {
    /// The provider knows no such identity.
    NotFound,
    /// The provider could not be reached or answered with another failure;
    /// a later attempt may succeed.
    Transient,
}

/// Why a presented key was not confirmed.
#[derive(Debug, Clone, Copy, PartialEq, Eq, Structural)]
pub enum VerifyError {
    /// The key list could not be had.
    Fetch(FetchError),
    /// The presented key line is malformed.
    Key(KeyParseError),
    /// The identity does not publish the presented key.
    Mismatch,
}

/// The request for an identity's key list.
#[derive(Debug, Clone)]
pub struct KeysRequest {
    pub url: String,
    pub user_agent: String,
    pub timeout_secs: u64,
}

/// The identity provider as the gateway sees it: where the key lists are
/// published.
#[derive(Debug, Clone)]
pub struct GitHubKeyFetcher {
    pub host: String,
}

pub const KEYS_USER_AGENT: &'static str = "agentman-gateway/0.1";

pub const KEYS_TIMEOUT_SECS: u64 = 10;

pub const DEFAULT_KEYS_HOST: &'static str = "github.com";

/// The address of an identity's key list: `https://<host>/<identity>.keys`.
pub open spec fn keys_url(host: Seq<char>, github_user: Seq<char>) -> Seq<char> {
    "https://"@ + host + "/"@ + github_user + ".keys"@
}

/// The key lines that a reply carries: those of the body of a 2xx answer.
/// A 404 says that the identity is unknown; anything else is transient.
pub open spec fn fetched_lines(reply: KeysReply) -> Result<Seq<Seq<char>>, FetchError> {
    match reply {
        KeysReply::Unreachable => Err(FetchError::Transient),
        KeysReply::Answer { status, body } => if 200 <= status < 300 {
            Ok(nonblank_lines(body@))
        } else if status == 404 {
            Err(FetchError::NotFound)
        } else {
            Err(FetchError::Transient)
        },
    }
}

/// Some line of `lines` is a well-formed key line with these two fields.
pub open spec fn key_listed(lines: Seq<Seq<char>>, fields: (Seq<char>, Seq<char>)) -> bool {
    exists|i: int|
        0 <= i < lines.len() && parsed_key(#[trigger] lines[i]) == Ok::<_, KeyParseError>(fields)
}

/// The verdict on a key with the given fields against a reply: the key's
/// algorithm where the reply lists the key.
pub open spec fn fields_verdict(reply: KeysReply, fields: (Seq<char>, Seq<char>)) -> Result<
    Seq<char>,
    VerifyError,
> {
    match fetched_lines(reply) {
        Err(e) => Err(VerifyError::Fetch(e)),
        Ok(lines) => if key_listed(lines, fields) {
            Ok(fields.0)
        } else {
            Err(VerifyError::Mismatch)
        },
    }
}

/// The verdict on a presented key line against a reply.
pub open spec fn key_verdict(reply: KeysReply, presented: Seq<char>) -> Result<
    Seq<char>,
    VerifyError,
> {
    match fetched_lines(reply) {
        Err(e) => Err(VerifyError::Fetch(e)),
        Ok(lines) => match parsed_key(presented) {
            Err(e) => Err(VerifyError::Key(e)),
            Ok(fields) => fields_verdict(reply, fields),
        },
    }
}

/// Whether a list of key lines holds the key with the given fields.
pub fn lists_key(keys: &Vec<String>, algorithm: &str, data: &str) -> (r: bool)
    ensures
        r == key_listed(views(keys@), (algorithm@, data@)),
{
    let mut i: usize = 0;
    while i < keys.len()
        invariant
            i <= keys.len(),
            forall|j: int|
                0 <= j < i ==> parsed_key(#[trigger] views(keys@)[j]) != Ok::<_, KeyParseError>(
                    (algorithm@, data@),
                ),
        decreases keys.len() - i,
    {
        assert(views(keys@)[i as int] == keys@[i as int]@);
        match parse_ssh_key(keys[i].as_str()) {
            Ok((a, d)) => {
                if str_eq(a.as_str(), algorithm) && str_eq(d.as_str(), data) {
                    return true;
                }
            },
            Err(_) => {},
        }
        i += 1;
    }
    false
}

impl GitHubKeyFetcher {
    /// The provider at its usual host.
    pub fn new() -> (r: Self)
        ensures
            r.host@ == DEFAULT_KEYS_HOST@,
    {
        GitHubKeyFetcher { host: DEFAULT_KEYS_HOST.to_owned() }
    }

    /// The request that fetches an identity's key list.
    pub fn request(&self, github_user: &str) -> (r: KeysRequest)
        ensures
            r.url@ == keys_url(self.host@, github_user@),
            r.user_agent@ == KEYS_USER_AGENT@,
            r.timeout_secs == KEYS_TIMEOUT_SECS,
    {
        let mut url = String::from_str("https://");
        url.append(self.host.as_str());
        url.append("/");
        url.append(github_user);
        url.append(".keys");
        KeysRequest {
            url,
            user_agent: KEYS_USER_AGENT.to_owned(),
            timeout_secs: KEYS_TIMEOUT_SECS,
        }
    }

    /// The key lines in the provider's reply.
    pub fn fetch_keys(&self, reply: &KeysReply) -> (r: Result<Vec<String>, FetchError>)
        ensures
            match r {
                Ok(lines) => fetched_lines(*reply) == Ok::<_, FetchError>(views(lines@)),
                Err(e) => fetched_lines(*reply) == Err::<Seq<Seq<char>>, _>(e),
            },
    {
        match reply {
            KeysReply::Unreachable => Err(FetchError::Transient),
            KeysReply::Answer { status, body } => {
                if 200 <= *status && *status < 300 {
                    Ok(split_nonblank_lines(body.as_str()))
                } else if *status == 404 {
                    Err(FetchError::NotFound)
                } else {
                    Err(FetchError::Transient)
                }
            },
        }
    }

    /// Decides from the provider's reply whether the key with the given
    /// algorithm name and base64 text belongs to the identity.
    pub fn verify_fields(&self, reply: &KeysReply, algorithm: &str, data: &str) -> (r: Result<
        String,
        VerifyError,
    >)
        ensures
            match r {
                Ok(t) => fields_verdict(*reply, (algorithm@, data@)) == Ok::<_, VerifyError>(t@),
                Err(e) => fields_verdict(*reply, (algorithm@, data@)) == Err::<Seq<char>, _>(e),
            },
    {
        match self.fetch_keys(reply) {
            Err(e) => Err(VerifyError::Fetch(e)),
            Ok(lines) => {
                if lists_key(&lines, algorithm, data) {
                    Ok(String::from_str(algorithm))
                } else {
                    Err(VerifyError::Mismatch)
                }
            },
        }
    }

    /// Decides from the provider's reply whether a presented key line
    /// belongs to the identity; a comment on the line is ignored. The
    /// result is the key's algorithm.
    pub fn verify_key(&self, reply: &KeysReply, public_key: &str) -> (r: Result<
        String,
        VerifyError,
    >)
        ensures
            match r {
                Ok(t) => key_verdict(*reply, public_key@) == Ok::<_, VerifyError>(t@),
                Err(e) => key_verdict(*reply, public_key@) == Err::<Seq<char>, _>(e),
            },
    {
        match self.fetch_keys(reply) {
            Err(e) => Err(VerifyError::Fetch(e)),
            Ok(lines) => match parse_ssh_key(public_key) {
                Err(e) => Err(VerifyError::Key(e)),
                Ok((a, d)) => {
                    if lists_key(&lines, a.as_str(), d.as_str()) {
                        Ok(a)
                    } else {
                        Err(VerifyError::Mismatch)
                    }
                },
            },
        }
    }
}

/// The algorithm of a public key.
#[derive(Debug, Clone, Copy, PartialEq, Eq, Structural)]
pub enum KeyAlgorithm {
    Ed25519,
    Rsa,
    EcdsaNistP256,
    EcdsaNistP384,
    EcdsaNistP521,
    Other,
}

/// A public key as a client presents it: its algorithm and its blob in SSH
/// wire format.
#[derive(Debug, Clone)]
pub struct OfferedKey {
    pub algorithm: KeyAlgorithm,
    pub blob: Vec<u8>,
}

/// The name under which OpenSSH writes an algorithm.
pub open spec fn algorithm_name(a: KeyAlgorithm) -> Seq<char> {
    match a {
        KeyAlgorithm::Ed25519 => "ssh-ed25519"@,
        KeyAlgorithm::Rsa => "ssh-rsa"@,
        KeyAlgorithm::EcdsaNistP256 => "ecdsa-sha2-nistp256"@,
        KeyAlgorithm::EcdsaNistP384 => "ecdsa-sha2-nistp384"@,
        KeyAlgorithm::EcdsaNistP521 => "ecdsa-sha2-nistp521"@,
        KeyAlgorithm::Other => "unknown"@,
    }
}

impl KeyAlgorithm {
    /// The name under which OpenSSH writes the algorithm.
    pub fn name(&self) -> (r: &'static str)
        ensures
            r@ == algorithm_name(*self),
    {
        match self {
            KeyAlgorithm::Ed25519 => "ssh-ed25519",
            KeyAlgorithm::Rsa => "ssh-rsa",
            KeyAlgorithm::EcdsaNistP256 => "ecdsa-sha2-nistp256",
            KeyAlgorithm::EcdsaNistP384 => "ecdsa-sha2-nistp384",
            KeyAlgorithm::EcdsaNistP521 => "ecdsa-sha2-nistp521",
            KeyAlgorithm::Other => "unknown",
        }
    }
}

/// The fingerprint of a presented key.
pub fn compute_fingerprint_from_pubkey(key: &OfferedKey) -> (r: String)
    ensures
        r@ == fingerprint_of(key.blob@),
{
    compute_fingerprint_from_bytes(key.blob.as_slice())
}

/// The base64 text of a presented key's blob.
pub fn public_key_base64(key: &OfferedKey) -> (r: String)
    requires
        encodable(key.blob@.len()),
    ensures
        r@ == spec_base64(key.blob@),
{
    base64_padded(key.blob.as_slice())
}

/// A presented key as OpenSSH writes it: the algorithm's name, a space, and
/// the blob in base64.
pub fn public_key_to_openssh(key: &OfferedKey) -> (r: String)
    requires
        encodable(key.blob@.len()),
    ensures
        r@ == algorithm_name(key.algorithm) + " "@ + spec_base64(key.blob@),
{
    let mut out = String::from_str(key.algorithm.name());
    out.append(" ");
    let data = public_key_base64(key);
    out.append(data.as_str());
    out
}

} // verus!
