//! Signing and checking capability tokens, and the bearer tokens of local agents.
//!
//! A bearer token binds an agent to the daemon on its own machine. It is no capability token: it
//! carries no signature, and the daemon keeps only its digest.

use vstd::prelude::*;

use crate::clock;
use crate::codec;
use crate::codec::Base32Fault;
use crate::crypto;
use crate::ipc::SelectorV;
use crate::node;
use crate::node::NodeId;
use crate::rows::PeerSelectorBytes;
use crate::rows::TokenRow;
use crate::rows::TokenV;
use crate::store;
use crate::store::Store;
use crate::store::StoreV;
use crate::text;
use crate::token;
use crate::token::Cap;
use crate::token::CapabilityToken;
use crate::token::ClaimsV;
use crate::token::SignedToken;
use crate::token::TokenId;

verus! {

/// How far two clocks may be apart, in seconds.
pub const CLOCK_SKEW_SECS: i64 = 300;

/// The expiry of a token without a limit: the beginning of the year 2100.
pub const UNLIMITED_EXP: u64 = 4_102_444_800;

/// Why a token, or a peer, is not accepted.
#[derive(Debug, Clone, Copy)]
pub enum AuthError {
    BadSignature,
    BadClaims,
    Expired { exp: u64, now: u64 },
    SubjectMismatch,
    Revoked,
    MissingCap(Cap),
    NotForUs,
    PeerNotKnown(NodeId),
}

/// An error in words.
pub open spec fn auth_error_text(e: AuthError) -> Seq<char> {
    match e {
        AuthError::BadSignature => "bad signature"@,
        AuthError::BadClaims => "malformed claims"@,
        AuthError::Expired { exp, now } => "token expired (exp="@ + text::decimal_text(exp as nat)
            + ", now="@ + text::decimal_text(now as nat) + ")"@,
        AuthError::SubjectMismatch => "subject mismatch: token.sub != initiator"@,
        AuthError::Revoked => "token revoked"@,
        AuthError::MissingCap(Cap::Msg) => "missing required capability: "@ + "msg"@,
        AuthError::NotForUs => "issuer pubkey is not the local identity"@,
        AuthError::PeerNotKnown(n) => "peer not authorized: "@ + codec::hex_text(n@),
    }
}

impl AuthError {
    /// The error in words.
    pub fn to_string(&self) -> (r: String)
        ensures
            r@ == auth_error_text(*self),
    {
        match self {
            AuthError::BadSignature => "bad signature".to_owned(),
            AuthError::BadClaims => "malformed claims".to_owned(),
            AuthError::Expired { exp, now } => "token expired (exp=".to_owned().concat(
                text::u64_text(*exp).as_str(),
            ).concat(", now=").concat(text::u64_text(*now).as_str()).concat(")"),
            AuthError::SubjectMismatch => "subject mismatch: token.sub != initiator".to_owned(),
            AuthError::Revoked => "token revoked".to_owned(),
            AuthError::MissingCap(c) => "missing required capability: ".to_owned().concat(
                c.to_string().as_str(),
            ),
            AuthError::NotForUs => "issuer pubkey is not the local identity".to_owned(),
            AuthError::PeerNotKnown(n) => "peer not authorized: ".to_owned().concat(
                n.to_string().as_str(),
            ),
        }
    }
}

// ----- issuing -----

/// When a token that is issued now expires.
pub open spec fn expiry(ttl_secs: Option<u64>, now_secs: u64) -> u64 {
    match ttl_secs {
        Some(ttl) => if now_secs + ttl > u64::MAX {
            u64::MAX
        } else {
            (now_secs + ttl) as u64
        },
        None => UNLIMITED_EXP,
    }
}

/// The claims of a token from the owner of `issuer` to `sub`, issued at the given time under the
/// given identifier.
pub fn claims_at(
    issuer: &[u8; 32],
    sub: NodeId,
    caps: Vec<Cap>,
    ttl_secs: Option<u64>,
    now_secs: u64,
    id: TokenId,
) -> (r: CapabilityToken)
    ensures
        r@ == (ClaimsV {
            iss: crypto::ed25519_public(issuer@),
            sub: sub@,
            exp: expiry(ttl_secs, now_secs),
            caps: caps@,
            id: id@,
        }),
{
    let exp: u64 = match ttl_secs {
        Some(ttl) => if ttl > u64::MAX - now_secs {
            u64::MAX
        } else {
            now_secs + ttl
        },
        None => UNLIMITED_EXP,
    };
    CapabilityToken { iss: NodeId(crypto::public_key(issuer)), sub, exp, caps, id }
}

/// Whether claims are those of a token that is issued at the given time, under whatever identifier.
pub open spec fn claimed(
    issuer: Seq<u8>,
    sub: Seq<u8>,
    caps: Seq<Cap>,
    ttl_secs: Option<u64>,
    now_secs: u64,
    c: ClaimsV,
) -> bool {
    &&& c.iss == crypto::ed25519_public(issuer)
    &&& c.sub == sub
    &&& c.caps == caps
    &&& c.exp == expiry(ttl_secs, now_secs)
}

/// The claims of a token issued now under a fresh identifier.
pub fn new_claims(
    issuer: &[u8; 32],
    sub: NodeId,
    caps: Vec<Cap>,
    ttl_secs: Option<u64>,
) -> (r: CapabilityToken)
    ensures
        exists|now_secs: u64| #[trigger]
            claimed(issuer@, sub@, caps@, ttl_secs, now_secs, r@),
{
    let now_secs: u64 = clock::unix_secs();
    let id = crypto::random_16();
    let r = claims_at(issuer, sub, caps, ttl_secs, now_secs, id);
    assert(claimed(issuer@, sub@, caps@, ttl_secs, now_secs, r@));
    r
}

/// Signs encoded claims. The signature verifies under the issuer's public key.
pub fn sign_token(issuer: &[u8; 32], claims_cbor: Vec<u8>) -> (r: SignedToken)
    ensures
        r.claims_cbor@ == claims_cbor@,
        r.sig@ == crypto::ed25519_signature(issuer@, claims_cbor@),
        r.sig@.len() == 64,
        crypto::signature_valid(crypto::ed25519_public(issuer@), claims_cbor@, r.sig@),
{
    let sig = crypto::sign(issuer, claims_cbor.as_slice());
    let bytes = text::bytes_copy(sig.as_slice());
    SignedToken { claims_cbor, sig: bytes }
}

/// The text form of an encoded signed token: base32 without a prefix.
pub fn token_encode_base32(raw: &[u8]) -> (r: String)
    requires
        raw@.len() <= usize::MAX / 512,
    ensures
        r@ == codec::base32_text(raw@),
{
    codec::base32_encode(raw)
}

/// Reads an encoded signed token from its text form, which may have white space around it.
pub fn token_decode_base32(s: &str) -> (r: Result<Vec<u8>, Base32Fault>)
    requires
        text::utf8(s@).len() <= usize::MAX / 8,
    ensures
        match r {
            Ok(raw) => codec::base32_text(raw@) == text::trimmed(s@),
            Err(f) => {
                &&& forall|raw: Seq<u8>| #[trigger]
                    codec::base32_text(raw) != text::trimmed(s@)
                &&& codec::is_base32_fault(text::utf8(text::trimmed(s@)), f)
            },
        },
{
    proof {
        text::lemma_trimmed_part(s@);
    }
    codec::base32_decode(text::trim(s))
}

/// The text of a token is read back to the token's bytes, and to no others, with white space around it
/// or not.
pub proof fn law_token_text_is_read_back(
    before: Seq<char>,
    raw: Seq<u8>,
    after: Seq<char>,
    read: Seq<u8>,
)
    requires
        forall|i: int| 0 <= i < before.len() ==> text::is_space(#[trigger] before[i]),
        forall|i: int| 0 <= i < after.len() ==> text::is_space(#[trigger] after[i]),
    ensures
        text::trimmed(before + codec::base32_text(raw) + after) == codec::base32_text(raw),
        codec::base32_text(read) == text::trimmed(before + codec::base32_text(raw) + after) ==> read
            == raw,
{
    let t = codec::base32_text(raw);
    let n = t.len() as int;
    if n > 0 {
        codec::lemma_quintet_range(raw, 0);
        codec::lemma_quintet_range(raw, n - 1);
        text::law_trim_removes_padding(before, t, after);
    } else {
        assert(before + t + after =~= before + after);
        text::lemma_trimmed_blank(before + after);
        assert(t =~= Seq::empty());
    }
    if codec::base32_text(read) == t {
        codec::law_base32_injective(read, raw);
    }
}

/// The row under which a token is kept.
pub fn token_row(claims: &CapabilityToken, raw: Vec<u8>) -> (r: TokenRow)
    ensures
        r@ == row_of(claims@, raw@),
{
    TokenRow {
        id: claims.id,
        iss: claims.iss,
        sub: claims.sub,
        exp: claims.exp,
        caps: token::caps_copy(&claims.caps),
        raw,
        revoked: false,
    }
}

/// The row of a token that is not revoked.
pub open spec fn row_of(c: ClaimsV, raw: Seq<u8>) -> TokenV {
    TokenV { id: c.id, iss: c.iss, sub: c.sub, exp: c.exp, caps: c.caps, raw, revoked: false }
}

// ----- bearer tokens of local agents -----

/// The bearer token made of 32 secret bytes.
pub fn agent_token_of(secret: &[u8; 32]) -> (r: String)
    ensures
        r@ == codec::base32_text(secret@),
        r@.len() == 52,
{
    codec::base32_encode(secret.as_slice())
}

/// A new bearer token: 32 random bytes in base32, 52 characters.
pub fn new_agent_token() -> (r: String)
    ensures
        r@.len() == 52,
        exists|secret: Seq<u8>| secret.len() == 32 && r@ == #[trigger] codec::base32_text(secret),
{
    let secret = crypto::random_32();
    agent_token_of(&secret)
}

/// The digest under which a bearer token is known. White space around the token does not count.
pub open spec fn token_digest(token: Seq<char>) -> Seq<u8> {
    crypto::blake3_digest(text::utf8(text::trimmed(token)))
}

/// The digest under which a bearer token is known.
pub fn agent_token_hash(token: &str) -> (r: Vec<u8>)
    ensures
        r@ == token_digest(token@),
        r@.len() == 32,
{
    let h = crypto::digest(text::trim(token).as_bytes());
    text::bytes_copy(h.as_slice())
}

/// White space around a bearer token, such as the end of the line that it was read from, does not
/// matter to its lookup.
pub proof fn law_token_digest_ignores_padding(
    before: Seq<char>,
    secret: Seq<u8>,
    after: Seq<char>,
)
    requires
        secret.len() > 0,
        forall|i: int| 0 <= i < before.len() ==> text::is_space(#[trigger] before[i]),
        forall|i: int| 0 <= i < after.len() ==> text::is_space(#[trigger] after[i]),
    ensures
        token_digest(before + codec::base32_text(secret) + after) == token_digest(
            codec::base32_text(secret),
        ),
{
    let t = codec::base32_text(secret);
    let n = t.len() as int;
    assert(n > 0);
    codec::lemma_quintet_range(secret, 0);
    codec::lemma_quintet_range(secret, n - 1);
    text::law_trim_removes_padding(before, t, after);
    text::law_trim_removes_padding(Seq::empty(), t, Seq::empty());
    assert(Seq::<char>::empty() + t + Seq::<char>::empty() =~= t);
}

// ----- checking -----

/// Whether the token's signature is one by the issuer that its claims name.
pub open spec fn signed_by_issuer(signed: SignedToken, claims: ClaimsV) -> bool {
    &&& signed.sig@.len() == 64
    &&& crypto::signature_valid(claims.iss, signed.claims_cbor@, signed.sig@)
}

/// Whether a token that expires at `exp` has expired, clock skew allowed for.
pub open spec fn expired(exp: u64, now_secs: u64) -> bool {
    now_secs - CLOCK_SKEW_SECS > exp
}

/// Whether the token of the given identifier is known to be revoked.
pub open spec fn known_revoked(s: StoreV, id: Seq<u8>) -> bool {
    store::token_of(s, id) matches Some(t) && t.revoked
}

/// Why a token is not accepted from `initiator` for `required`; `None` where it is. The reasons are
/// tried in this order.
pub open spec fn refusal(
    signed: SignedToken,
    claims: Option<ClaimsV>,
    local: Seq<u8>,
    initiator: Seq<u8>,
    required: Cap,
    s: StoreV,
    now_secs: u64,
) -> Option<AuthError> {
    match claims {
        None => Some(AuthError::BadClaims),
        Some(c) => if c.iss != local {
            Some(AuthError::NotForUs)
        } else if !signed_by_issuer(signed, c) {
            Some(AuthError::BadSignature)
        } else if c.sub != initiator {
            Some(AuthError::SubjectMismatch)
        } else {
            claims_refusal(c, required, s, now_secs)
        },
    }
}

/// Why authentic claims are not valid for `required`; `None` where they are.
pub open spec fn claims_refusal(c: ClaimsV, required: Cap, s: StoreV, now_secs: u64) -> Option<
    AuthError,
> {
    if expired(c.exp, now_secs) {
        Some(AuthError::Expired { exp: c.exp, now: now_secs })
    } else if known_revoked(s, c.id) {
        Some(AuthError::Revoked)
    } else if !c.caps.contains(required) {
        Some(AuthError::MissingCap(required))
    } else {
        None
    }
}

/// Whether the signature is the issuer's.
fn check_signature(signed: &SignedToken, claims: &CapabilityToken) -> (r: bool)
    ensures
        r == signed_by_issuer(*signed, claims@),
{
    if signed.sig.len() != 64 {
        return false;
    }
    let sig: [u8; 64] = node::fixed(signed.sig.as_slice());
    assert(signed.sig@.take(64) =~= signed.sig@);
    crypto::verify(&claims.iss.0, signed.claims_cbor.as_slice(), &sig)
}

/// Checks a token's signature against the issuer that its claims name. `claims` is what the encoded
/// claims decode to, `None` where they do not. Whom the token is for, its expiry, its revocation and
/// its capabilities are not checked.
pub fn verify_signed_claims(signed: &SignedToken, claims: Option<CapabilityToken>) -> (r: Result<
    CapabilityToken,
    AuthError,
>)
    ensures
        match claims {
            None => r == Err::<CapabilityToken, AuthError>(AuthError::BadClaims),
            Some(c) => if signed_by_issuer(*signed, c@) {
                r matches Ok(d) && d@ == c@
            } else {
                r == Err::<CapabilityToken, AuthError>(AuthError::BadSignature)
            },
        },
{
    match claims {
        None => Err(AuthError::BadClaims),
        Some(c) => if check_signature(signed, &c) {
            Ok(c)
        } else {
            Err(AuthError::BadSignature)
        },
    }
}

/// Checks the expiry, the revocation and the capabilities of authentic claims.
pub fn validate_claims(
    claims: &CapabilityToken,
    required_cap: Cap,
    store: &Store,
    now_secs: u64,
) -> (r: Result<(), AuthError>)
    ensures
        match claims_refusal(claims@, required_cap, store@, now_secs) {
            None => r is Ok,
            Some(e) => r == Err::<(), AuthError>(e),
        },
{
    let now: i128 = now_secs as i128;
    if now - CLOCK_SKEW_SECS as i128 > claims.exp as i128 {
        return Err(AuthError::Expired { exp: claims.exp, now: now_secs });
    }
    if let Some(row) = store.token_find(&claims.id) {
        if row.revoked {
            return Err(AuthError::Revoked);
        }
    }
    if !token::has_cap(&claims.caps, required_cap) {
        return Err(AuthError::MissingCap(required_cap));
    }
    Ok(())
}

/// Checks a token that `initiator` presents at the given time. Only tokens issued by the local node
/// are accepted.
pub fn verify_token_at(
    signed: &SignedToken,
    claims: Option<CapabilityToken>,
    local_nodeid: NodeId,
    initiator: NodeId,
    required_cap: Cap,
    store: &Store,
    now_secs: u64,
) -> (r: Result<CapabilityToken, AuthError>)
    ensures
        match refusal(
            *signed,
            claims_view(claims),
            local_nodeid@,
            initiator@,
            required_cap,
            store@,
            now_secs,
        ) {
            None => r matches Ok(c) && Some(c@) == claims_view(claims),
            Some(e) => r == Err::<CapabilityToken, AuthError>(e),
        },
{
    let c = match claims {
        None => return Err(AuthError::BadClaims),
        Some(c) => c,
    };
    if !c.iss.same(&local_nodeid) {
        return Err(AuthError::NotForUs);
    }
    if !check_signature(signed, &c) {
        return Err(AuthError::BadSignature);
    }
    if !c.sub.same(&initiator) {
        return Err(AuthError::SubjectMismatch);
    }
    match validate_claims(&c, required_cap, store, now_secs) {
        Ok(()) => Ok(c),
        Err(e) => Err(e),
    }
}

/// The view of decoded claims.
pub open spec fn claims_view(c: Option<CapabilityToken>) -> Option<ClaimsV> {
    match c {
        Some(t) => Some(t@),
        None => None,
    }
}

/// Checks a token that `initiator` presents now.
pub fn verify_token(
    signed: &SignedToken,
    claims: Option<CapabilityToken>,
    local_nodeid: NodeId,
    initiator: NodeId,
    required_cap: Cap,
    store: &Store,
) -> (r: Result<CapabilityToken, AuthError>)
    ensures
        exists|now_secs: u64|
            match #[trigger] refusal(
                *signed,
                claims_view(claims),
                local_nodeid@,
                initiator@,
                required_cap,
                store@,
                now_secs,
            ) {
                None => r matches Ok(c) && Some(c@) == claims_view(claims),
                Some(e) => r == Err::<CapabilityToken, AuthError>(e),
            },
{
    let now_secs: u64 = clock::unix_secs();
    verify_token_at(signed, claims, local_nodeid, initiator, required_cap, store, now_secs)
}

/// Whether a peer is in the registry.
pub open spec fn peer_known(s: StoreV, nodeid: Seq<u8>) -> bool {
    store::peer_of(s, SelectorV::NodeId(nodeid)) is Some
}

/// Lets only known peers in.
pub fn require_peer_known(store: &Store, nodeid: &NodeId) -> (r: Result<(), AuthError>)
    ensures
        r == if peer_known(store@, nodeid@) {
            Ok::<(), AuthError>(())
        } else {
            Err(AuthError::PeerNotKnown(*nodeid))
        },
{
    match store.peer_get(&PeerSelectorBytes::NodeId(*nodeid)) {
        Some(_) => Ok(()),
        None => Err(AuthError::PeerNotKnown(*nodeid)),
    }
}

/// A token is accepted exactly when it was issued by the local node, bears that node's signature, was
/// issued to the node that presents it, has not expired beyond the allowed skew, is not revoked, and
/// carries the capability.
pub proof fn law_token_accepted_iff(
    signed: SignedToken,
    c: ClaimsV,
    local: Seq<u8>,
    initiator: Seq<u8>,
    required: Cap,
    s: StoreV,
    now_secs: u64,
)
    ensures
        refusal(signed, Some(c), local, initiator, required, s, now_secs) is None <==> {
            &&& c.iss == local
            &&& signed.sig@.len() == 64
            &&& crypto::signature_valid(local, signed.claims_cbor@, signed.sig@)
            &&& c.sub == initiator
            &&& now_secs - CLOCK_SKEW_SECS <= c.exp
            &&& !known_revoked(s, c.id)
            &&& c.caps.contains(required)
        },
{
}

/// Once a token is revoked, it is refused as revoked wherever it was accepted before.
pub proof fn law_revocation_takes_effect(
    signed: SignedToken,
    c: ClaimsV,
    local: Seq<u8>,
    initiator: Seq<u8>,
    required: Cap,
    s: StoreV,
    t: TokenV,
    now_secs: u64,
)
    requires
        crate::store_laws::wf(s),
        t.id == c.id,
        refusal(signed, Some(c), local, initiator, required, s, now_secs) is None,
    ensures
        refusal(
            signed,
            Some(c),
            local,
            initiator,
            required,
            store::token_revoked(store::token_inserted(s, t), c.id),
            now_secs,
        ) == Some(AuthError::Revoked),
{
    crate::store_laws::law_token_insert_then_revoke(s, t);
}

/// A token that is issued now is from the issuer to the subject, with the capabilities that are given,
/// and lasts as long as is asked for, or until the year 2100 where no limit is.
pub proof fn law_new_claims_are_as_asked(
    issuer: Seq<u8>,
    sub: Seq<u8>,
    caps: Seq<Cap>,
    ttl_secs: Option<u64>,
    now_secs: u64,
    c: ClaimsV,
)
    requires
        claimed(issuer, sub, caps, ttl_secs, now_secs, c),
    ensures
        c.iss == crypto::ed25519_public(issuer),
        c.sub == sub,
        c.caps == caps,
        ttl_secs is None ==> c.exp == 4_102_444_800,
        ttl_secs matches Some(ttl) ==> c.exp == now_secs + ttl || (now_secs + ttl > u64::MAX
            && c.exp == u64::MAX),
{
}

} // verus!
