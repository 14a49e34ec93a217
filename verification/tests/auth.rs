use wt::auth::{
    agent_token_hash, agent_token_of, new_agent_token, new_claims, require_peer_known, sign_token,
    token_decode_base32, token_encode_base32, token_row, verify_signed_claims, verify_token,
    verify_token_at, AuthError, CLOCK_SKEW_SECS, UNLIMITED_EXP,
};
use wt::clock::unix_secs;
use wt::crypto::Identity;
use wt::node::NodeId;
use wt::store::Store;
use wt::token::{Cap, CapabilityToken, SignedToken};

/// Any encoding of the claims serves here.
fn encode(claims: &CapabilityToken) -> Vec<u8> {
    let mut out = Vec::new();
    out.extend_from_slice(&claims.iss.0);
    out.extend_from_slice(&claims.sub.0);
    out.extend_from_slice(&claims.exp.to_be_bytes());
    out.push(claims.caps.len() as u8);
    out.extend_from_slice(&claims.id);
    out
}

fn encode_signed(signed: &SignedToken) -> Vec<u8> {
    let mut out = (signed.claims_cbor.len() as u32).to_be_bytes().to_vec();
    out.extend_from_slice(&signed.claims_cbor);
    out.extend_from_slice(&signed.sig);
    out
}

fn issue(
    issuer: &Identity,
    sub: NodeId,
    caps: Vec<Cap>,
    ttl: Option<u64>,
) -> (CapabilityToken, SignedToken) {
    let claims = new_claims(issuer.secret_key(), sub, caps, ttl);
    let signed = sign_token(issuer.secret_key(), encode(&claims));
    (claims, signed)
}

fn verify(
    signed: &SignedToken,
    claims: &CapabilityToken,
    local: NodeId,
    initiator: NodeId,
    store: &Store,
) -> Result<CapabilityToken, AuthError> {
    verify_token(
        signed,
        Some(claims.copied()),
        local,
        initiator,
        Cap::Msg,
        store,
    )
}

#[test]
fn sign_and_verify_token_accepts_valid_claims() {
    let issuer = Identity::generate();
    let subject = Identity::generate();
    let store = Store::new();

    let (claims, signed) = issue(&issuer, subject.nodeid(), vec![Cap::Msg], Some(60));
    let verified = verify(&signed, &claims, issuer.nodeid(), subject.nodeid(), &store).unwrap();

    assert_eq!(verified.iss, issuer.nodeid());
    assert_eq!(verified.sub, subject.nodeid());
    assert_eq!(verified.id, claims.id);
}

#[test]
fn token_base32_roundtrips_and_rejects_garbage() {
    let issuer = Identity::generate();
    let subject = Identity::generate();
    let (_, signed) = issue(&issuer, subject.nodeid(), vec![Cap::Msg], Some(60));

    let raw = encode_signed(&signed);
    let encoded = token_encode_base32(&raw);
    let decoded = token_decode_base32(&format!(" \n{encoded}\t")).unwrap();
    assert_eq!(decoded, raw);
    assert!(token_decode_base32("not-base32!").is_err());
}

#[test]
fn verify_rejects_wrong_issuer_subject_missing_cap_and_revocation() {
    let issuer = Identity::generate();
    let other = Identity::generate();
    let subject = Identity::generate();
    let mut store = Store::new();
    let (claims, signed) = issue(&issuer, subject.nodeid(), vec![Cap::Msg], Some(60));

    assert!(matches!(
        verify(&signed, &claims, other.nodeid(), subject.nodeid(), &store),
        Err(AuthError::NotForUs)
    ));
    assert!(matches!(
        verify(&signed, &claims, issuer.nodeid(), other.nodeid(), &store),
        Err(AuthError::SubjectMismatch)
    ));

    let (bare, no_caps) = issue(&issuer, subject.nodeid(), Vec::new(), Some(60));
    assert!(matches!(
        verify(&no_caps, &bare, issuer.nodeid(), subject.nodeid(), &store),
        Err(AuthError::MissingCap(Cap::Msg))
    ));

    let (claims, signed) = issue(&issuer, subject.nodeid(), vec![Cap::Msg], Some(60));
    let mut row = token_row(&claims, encode_signed(&signed));
    row.revoked = true;
    store.token_insert(&row);
    assert!(matches!(
        verify(&signed, &claims, issuer.nodeid(), subject.nodeid(), &store),
        Err(AuthError::Revoked)
    ));
}

#[test]
fn verify_rejects_expired_token_outside_skew() {
    let issuer = Identity::generate();
    let subject = Identity::generate();
    let store = Store::new();
    let claims = CapabilityToken {
        iss: issuer.nodeid(),
        sub: subject.nodeid(),
        exp: unix_secs().saturating_sub((CLOCK_SKEW_SECS as u64) + 1),
        caps: vec![Cap::Msg],
        id: [3; 16],
    };
    let signed = sign_token(issuer.secret_key(), encode(&claims));

    assert!(matches!(
        verify(&signed, &claims, issuer.nodeid(), subject.nodeid(), &store),
        Err(AuthError::Expired { .. })
    ));
}

#[test]
fn verify_tolerates_five_minutes_of_skew() {
    let issuer = Identity::generate();
    let subject = Identity::generate();
    let store = Store::new();
    let claims = CapabilityToken {
        iss: issuer.nodeid(),
        sub: subject.nodeid(),
        exp: 1_000_000,
        caps: vec![Cap::Msg],
        id: [3; 16],
    };
    let signed = sign_token(issuer.secret_key(), encode(&claims));
    let at = |now: u64| {
        verify_token_at(
            &signed,
            Some(claims.copied()),
            issuer.nodeid(),
            subject.nodeid(),
            Cap::Msg,
            &store,
            now,
        )
    };
    assert!(at(1_000_300).is_ok());
    match at(1_000_301) {
        Err(e) => assert_eq!(e.to_string(), "token expired (exp=1000000, now=1000301)"),
        Ok(_) => panic!("expected an expired token"),
    }
    assert!(at(0).is_ok());
}

#[test]
fn verify_signed_claims_rejects_forgery_and_malformed_payloads() {
    let issuer = Identity::generate();
    let subject = Identity::generate();
    let (claims, mut signed) = issue(&issuer, subject.nodeid(), vec![Cap::Msg], Some(60));

    signed.sig[0] ^= 0x01;
    assert!(matches!(
        verify_signed_claims(&signed, Some(claims.copied())),
        Err(AuthError::BadSignature)
    ));

    let short_sig = SignedToken {
        claims_cbor: signed.claims_cbor.clone(),
        sig: vec![0; 63],
    };
    assert!(matches!(
        verify_signed_claims(&short_sig, Some(claims.copied())),
        Err(AuthError::BadSignature)
    ));

    let malformed = SignedToken {
        claims_cbor: vec![0xff],
        sig: vec![0; 64],
    };
    assert!(matches!(
        verify_signed_claims(&malformed, None),
        Err(AuthError::BadClaims)
    ));
}

#[test]
fn a_forged_claim_does_not_verify_under_an_honest_signature() {
    let issuer = Identity::generate();
    let subject = Identity::generate();
    let (claims, mut signed) = issue(&issuer, subject.nodeid(), vec![Cap::Msg], Some(60));
    signed.claims_cbor[0] ^= 0x01;
    assert!(matches!(
        verify_signed_claims(&signed, Some(claims.copied())),
        Err(AuthError::BadSignature)
    ));
}

#[test]
fn agent_token_is_random_and_hash_is_stable() {
    let t1 = new_agent_token();
    let t2 = new_agent_token();
    assert_ne!(t1, t2);
    assert_eq!(t1.len(), 52); // base32(32 bytes), no padding
    assert_eq!(agent_token_hash(&t1), agent_token_hash(&t1));
    assert_eq!(agent_token_hash(&t1).len(), 32);
    assert_ne!(agent_token_hash(&t1), agent_token_hash(&t2));
    // Surrounding whitespace is ignored (env/arg with a trailing newline still matches).
    assert_eq!(
        agent_token_hash(&t1),
        agent_token_hash(&format!("  {t1}\n"))
    );
}

#[test]
fn bearer_tokens_are_base32_and_known_by_their_blake3_digest() {
    assert_eq!(agent_token_of(&[0; 32]), "A".repeat(52));
    // The BLAKE3 digest of `abc`.
    assert_eq!(
        agent_token_hash("abc"),
        vec![
            0x64, 0x37, 0xb3, 0xac, 0x38, 0x46, 0x51, 0x33, 0xff, 0xb6, 0x3b, 0x75, 0x27, 0x3a,
            0x8d, 0xb5, 0x48, 0xc5, 0x58, 0x46, 0x5d, 0x79, 0xdb, 0x03, 0xfd, 0x35, 0x9c, 0x6c,
            0xd5, 0xbd, 0x9d, 0x85
        ]
    );
}

#[test]
fn a_grant_without_a_time_to_live_is_unlimited() {
    let issuer = Identity::generate();
    let claims = new_claims(issuer.secret_key(), NodeId([2; 32]), vec![Cap::Msg], None);
    assert_eq!(claims.exp, UNLIMITED_EXP);
    assert_eq!(claims.iss, issuer.nodeid());
    let forever = new_claims(
        issuer.secret_key(),
        NodeId([2; 32]),
        vec![Cap::Msg],
        Some(u64::MAX),
    );
    assert_eq!(forever.exp, u64::MAX);
}

#[test]
fn unknown_peers_are_turned_away() {
    let mut store = Store::new();
    let n = NodeId([0xab; 32]);
    match require_peer_known(&store, &n) {
        Err(e) => assert_eq!(
            e.to_string(),
            format!("peer not authorized: {}", n.to_string())
        ),
        Ok(()) => panic!("expected a refusal"),
    }
    store.peer_add(n, "bob", None).unwrap();
    assert!(require_peer_known(&store, &n).is_ok());
}

#[test]
fn errors_read_as_they_should() {
    assert_eq!(AuthError::BadSignature.to_string(), "bad signature");
    assert_eq!(AuthError::BadClaims.to_string(), "malformed claims");
    assert_eq!(
        AuthError::NotForUs.to_string(),
        "issuer pubkey is not the local identity"
    );
    assert_eq!(AuthError::Revoked.to_string(), "token revoked");
    assert_eq!(
        AuthError::MissingCap(Cap::Msg).to_string(),
        "missing required capability: msg"
    );
    assert_eq!(
        AuthError::SubjectMismatch.to_string(),
        "subject mismatch: token.sub != initiator"
    );
}

#[test]
fn identities_come_from_their_seed() {
    // The first key pair of RFC 8032.
    let seed: [u8; 32] = [
        0x9d, 0x61, 0xb1, 0x9d, 0xef, 0xfd, 0x5a, 0x60, 0xba, 0x84, 0x4a, 0xf4, 0x92, 0xec, 0x2c,
        0xc4, 0x44, 0x49, 0xc5, 0x69, 0x7b, 0x32, 0x69, 0x19, 0x70, 0x3b, 0xac, 0x03, 0x1c, 0xae,
        0x7f, 0x60,
    ];
    let id = Identity::from_seed(seed);
    assert_eq!(
        id.nodeid().to_string(),
        "d75a980182b10ab7d54bfed3c964073a0ee172f3daa62325af021a68f707511a"
    );
    assert_eq!(
        id.public_key_file(),
        "d75a980182b10ab7d54bfed3c964073a0ee172f3daa62325af021a68f707511a\n"
    );
}

#[test]
fn load_or_create_is_idempotent_and_writes_pubkey() {
    let first = Identity::generate();
    let key_file = first.secret_key().to_vec();
    assert_eq!(key_file.len(), 32);
    let second = Identity::from_file(&key_file).unwrap();

    assert_eq!(first.nodeid(), second.nodeid());
    assert_eq!(
        first.public_key_file().trim(),
        first.nodeid().to_string()
    );
}

#[test]
fn load_rejects_truncated_secret_key() {
    assert!(Identity::from_file(&[7u8; 31]).is_none());
}
