use agentman_gateway::identity::{
    compute_fingerprint, compute_fingerprint_from_bytes, compute_fingerprint_from_pubkey,
    format_fingerprint, lists_key, parse_ssh_key as parse_key_line, public_key_base64,
    public_key_to_openssh, split_key_fields, FetchError, GitHubKeyFetcher, KeyAlgorithm,
    KeyParseError, KeysReply, OfferedKey, VerifyError,
};

const ED25519_LINE: &str = "ssh-ed25519 AAAAC3NzaC1lZDI1NTE5AAAAIOMqqnkVzrm0SdG6UOoqKLsabgH5C9okWi0dh2l9GKJl test@example.com";
const ED25519_DATA: &str = "AAAAC3NzaC1lZDI1NTE5AAAAIOMqqnkVzrm0SdG6UOoqKLsabgH5C9okWi0dh2l9GKJl";
const ED25519_FINGERPRINT: &str = "SHA256:+DiY3wvvV6TuJJhbpZisF/zLDA0zPMSvHdkr4UvCOqU";

fn ed25519_blob() -> Vec<u8> {
    vec![
        0, 0, 0, 11, 115, 115, 104, 45, 101, 100, 50, 53, 53, 49, 57, 0, 0, 0, 32, 227, 42, 170,
        121, 21, 206, 185, 180, 73, 209, 186, 80, 234, 42, 40, 187, 26, 110, 1, 249, 11, 218, 36,
        90, 45, 29, 135, 105, 125, 24, 162, 101,
    ]
}

fn ed25519_key() -> OfferedKey {
    OfferedKey { algorithm: KeyAlgorithm::Ed25519, blob: ed25519_blob() }
}

#[test]
fn fingerprint_of_a_known_key() {
    assert_eq!(compute_fingerprint(ED25519_LINE).unwrap(), ED25519_FINGERPRINT);
    assert_eq!(compute_fingerprint_from_bytes(&ed25519_blob()), ED25519_FINGERPRINT);
    assert_eq!(compute_fingerprint_from_pubkey(&ed25519_key()), ED25519_FINGERPRINT);
}

#[test]
fn fingerprint_of_no_bytes() {
    assert_eq!(
        compute_fingerprint_from_bytes(&[]),
        "SHA256:47DEQpj8HBSa+/TImW+5JCeuQeRkm5NMpJWZG3hSuFU"
    );
}

#[test]
fn fingerprint_has_the_documented_shape() {
    for blob in [vec![], vec![0u8], vec![1, 2, 3], ed25519_blob()] {
        let f = compute_fingerprint_from_bytes(&blob);
        assert!(f.starts_with("SHA256:"));
        assert_eq!(f.len(), 50);
        assert!(!f.contains('='));
        assert!(f[7..]
            .chars()
            .all(|c| c.is_ascii_alphanumeric() || c == '+' || c == '/'));
        assert_eq!(f, compute_fingerprint_from_bytes(&blob));
    }
    assert_ne!(compute_fingerprint_from_bytes(&[1]), compute_fingerprint_from_bytes(&[2]));
}

#[test]
fn fingerprint_format_puts_the_marker_first() {
    assert_eq!(format_fingerprint("abc"), "SHA256:abc");
    assert_eq!(format_fingerprint(""), "SHA256:");
}

#[test]
fn fingerprint_errors() {
    assert_eq!(compute_fingerprint("ssh-ed25519"), Err(KeyParseError::TooFewParts));
    assert_eq!(compute_fingerprint(""), Err(KeyParseError::TooFewParts));
    assert_eq!(compute_fingerprint("ssh-ed25519 !!!"), Err(KeyParseError::InvalidBase64));
}

#[test]
fn key_line_fields() {
    assert_eq!(
        split_key_fields("  ssh-rsa   AAAA  some comment here "),
        Some(("ssh-rsa".to_string(), "AAAA".to_string()))
    );
    assert_eq!(split_key_fields("ssh-rsa"), None);
    assert_eq!(split_key_fields("   "), None);
    assert_eq!(
        parse_key_line("ssh-rsa\tAAAA"),
        Ok(("ssh-rsa".to_string(), "AAAA".to_string()))
    );
    assert_eq!(parse_key_line("ssh-rsa AAA"), Err(KeyParseError::InvalidBase64));
    assert_eq!(parse_key_line("ssh-rsa A=AA"), Err(KeyParseError::InvalidBase64));
    assert_eq!(parse_key_line("one"), Err(KeyParseError::TooFewParts));
}

#[test]
fn openssh_text_of_a_key() {
    let key = ed25519_key();
    assert_eq!(public_key_base64(&key), ED25519_DATA);
    assert_eq!(public_key_to_openssh(&key), format!("ssh-ed25519 {}", ED25519_DATA));
    let padded = OfferedKey { algorithm: KeyAlgorithm::Rsa, blob: vec![b'a', b'b'] };
    assert_eq!(public_key_to_openssh(&padded), "ssh-rsa YWI=");
    assert_eq!(KeyAlgorithm::EcdsaNistP256.name(), "ecdsa-sha2-nistp256");
    assert_eq!(KeyAlgorithm::EcdsaNistP384.name(), "ecdsa-sha2-nistp384");
    assert_eq!(KeyAlgorithm::EcdsaNistP521.name(), "ecdsa-sha2-nistp521");
    assert_eq!(KeyAlgorithm::Other.name(), "unknown");
}

#[test]
fn request_for_a_key_list() {
    let fetcher = GitHubKeyFetcher::new();
    let req = fetcher.request("octocat");
    assert_eq!(req.url, "https://github.com/octocat.keys");
    assert_eq!(req.user_agent, "agentman-gateway/0.1");
    assert_eq!(req.timeout_secs, 10);
}

#[test]
fn key_list_of_a_reply() {
    let fetcher = GitHubKeyFetcher::new();
    let body = "ssh-rsa AAAA\r\n\n   \n  ssh-ed25519 BBBB comment  \nlast";
    let reply = KeysReply::Answer { status: 200, body: body.to_string() };
    assert_eq!(
        fetcher.fetch_keys(&reply),
        Ok(vec![
            "ssh-rsa AAAA".to_string(),
            "ssh-ed25519 BBBB comment".to_string(),
            "last".to_string()
        ])
    );
    let empty = KeysReply::Answer { status: 204, body: String::new() };
    assert_eq!(fetcher.fetch_keys(&empty), Ok(vec![]));
    let missing = KeysReply::Answer { status: 404, body: "Not Found".to_string() };
    assert_eq!(fetcher.fetch_keys(&missing), Err(FetchError::NotFound));
    let broken = KeysReply::Answer { status: 500, body: String::new() };
    assert_eq!(fetcher.fetch_keys(&broken), Err(FetchError::Transient));
    let redirect = KeysReply::Answer { status: 302, body: String::new() };
    assert_eq!(fetcher.fetch_keys(&redirect), Err(FetchError::Transient));
    let early = KeysReply::Answer { status: 199, body: String::new() };
    assert_eq!(fetcher.fetch_keys(&early), Err(FetchError::Transient));
    assert_eq!(fetcher.fetch_keys(&KeysReply::Unreachable), Err(FetchError::Transient));
}

#[test]
fn verification_against_a_reply() {
    let fetcher = GitHubKeyFetcher::new();
    let body = format!("ssh-rsa AAAA\n{}\n", ED25519_LINE);
    let reply = KeysReply::Answer { status: 200, body };
    assert_eq!(
        fetcher.verify_key(&reply, &format!("ssh-ed25519 {} other@host", ED25519_DATA)),
        Ok("ssh-ed25519".to_string())
    );
    assert_eq!(
        fetcher.verify_fields(&reply, "ssh-ed25519", ED25519_DATA),
        Ok("ssh-ed25519".to_string())
    );
    assert_eq!(
        fetcher.verify_key(&reply, &format!("ssh-rsa {}", ED25519_DATA)),
        Err(VerifyError::Mismatch)
    );
    assert_eq!(fetcher.verify_key(&reply, "ssh-rsa BBBB"), Err(VerifyError::Mismatch));
    assert_eq!(
        fetcher.verify_key(&reply, "ssh-rsa"),
        Err(VerifyError::Key(KeyParseError::TooFewParts))
    );
    assert_eq!(
        fetcher.verify_key(&reply, "ssh-rsa ???"),
        Err(VerifyError::Key(KeyParseError::InvalidBase64))
    );
    let missing = KeysReply::Answer { status: 404, body: String::new() };
    assert_eq!(
        fetcher.verify_key(&missing, ED25519_LINE),
        Err(VerifyError::Fetch(FetchError::NotFound))
    );
    assert_eq!(
        fetcher.verify_key(&KeysReply::Unreachable, ED25519_LINE),
        Err(VerifyError::Fetch(FetchError::Transient))
    );
}

#[test]
fn malformed_published_lines_are_passed_over() {
    let lines = vec![
        "garbage".to_string(),
        "ssh-rsa not*base64".to_string(),
        "ssh-rsa AAAA".to_string(),
    ];
    assert!(lists_key(&lines, "ssh-rsa", "AAAA"));
    assert!(!lists_key(&lines, "ssh-rsa", "not*base64"));
    assert!(!lists_key(&lines, "ssh-dss", "AAAA"));
    assert!(!lists_key(&vec![], "ssh-rsa", "AAAA"));
}
