use ws_gateway::auth::{authenticate, credential_tag, issue_credential, AuthError, TAG_MODULUS};

fn valid_credential(id: &str, expires_at: u64, key: u64) -> String {
    let sig = credential_tag(id, expires_at, key);
    format!("{}.{}.{}", id, expires_at, sig)
}

#[test]
fn accepts_a_valid_credential() {
    let cred = valid_credential("alice", 2000, 7);
    let auth = authenticate(&cred, 7, 100).unwrap();
    assert_eq!(auth.external_id, "alice");
    assert_eq!(auth.expires_at, 2000);
}

#[test]
fn accepts_until_the_window_elapses() {
    let cred = valid_credential("alice", 2000, 7);
    assert!(authenticate(&cred, 7, 1999).is_ok());
    assert_eq!(authenticate(&cred, 7, 2000), Err(AuthError::Expired));
    assert_eq!(authenticate(&cred, 7, 3000), Err(AuthError::Expired));
}

#[test]
fn rejects_a_forged_signature() {
    let sig = credential_tag("alice", 2000, 7);
    let forged = format!("alice.2000.{}", (sig + 1) % TAG_MODULUS);
    assert_eq!(authenticate(&forged, 7, 100), Err(AuthError::InvalidSignature));
}

#[test]
fn rejects_a_credential_signed_with_another_key() {
    let cred = valid_credential("alice", 2000, 7);
    assert_eq!(authenticate(&cred, 8, 100), Err(AuthError::InvalidSignature));
}

#[test]
fn rejects_malformed_credentials() {
    let key = 7;
    let now = 100;
    for cred in [
        "",
        "alice",
        "alice.2000",
        ".2000.5",
        "alice..5",
        "alice.2000.",
        "alice.20x0.5",
        "alice.2000.5x",
        "alice.2000.3.4",
        "alice.99999999999999999999.5", // twenty digits
    ] {
        assert_eq!(
            authenticate(cred, key, now),
            Err(AuthError::Malformed),
            "credential {:?} should be malformed",
            cred
        );
    }
}

#[test]
fn ignores_leading_zeros_in_the_expiry() {
    let sig = credential_tag("alice", 2000, 7);
    let cred = format!("alice.0002000.{}", sig);
    let auth = authenticate(&cred, 7, 100).unwrap();
    assert_eq!(auth.expires_at, 2000);
}

#[test]
fn tag_has_the_documented_value() {
    // key folded in as the seed, then one character, then expiry, then key:
    // 0, then (0 * 131 + 65) = 65, then 65 * 131 = 8515, then 8515 * 131.
    assert_eq!(credential_tag("A", 0, 0), 1_115_465);
    // empty identity, seed 1: (1 * 131 + 2) = 133, then 133 * 131 + 1.
    assert_eq!(credential_tag("", 2, 1), 17_424);
}

#[test]
fn issued_credentials_round_trip() {
    let cred = issue_credential("alice", 2000, 7).unwrap();
    assert_eq!(cred, format!("alice.2000.{}", credential_tag("alice", 2000, 7)));
    let auth = authenticate(&cred, 7, 1999).unwrap();
    assert_eq!(auth.external_id, "alice");
    assert_eq!(auth.expires_at, 2000);
    assert_eq!(authenticate(&cred, 7, 2000), Err(AuthError::Expired));
    assert_eq!(authenticate(&cred, 8, 100), Err(AuthError::InvalidSignature));
}

#[test]
fn issuance_refuses_unusable_inputs() {
    assert!(issue_credential("", 2000, 7).is_none());
    assert!(issue_credential("a.b", 2000, 7).is_none());
    assert!(issue_credential("alice", 10_000_000_000_000_000_000, 7).is_none());
    assert!(issue_credential("alice", 9_999_999_999_999_999_999, 7).is_some());
}

#[test]
fn tag_depends_on_every_input() {
    let base = credential_tag("alice", 2000, 7);
    assert_ne!(credential_tag("alicf", 2000, 7), base);
    assert_ne!(credential_tag("alice", 2001, 7), base);
    assert_ne!(credential_tag("alice", 2000, 8), base);
}
