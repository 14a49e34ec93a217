//! Digests, keys and signatures.

use vstd::prelude::*;

use crate::codec;
use crate::node;
use crate::node::NodeId;

verus! {

/// The BLAKE3 digest of a byte string.
pub uninterp spec fn blake3_digest(b: Seq<u8>) -> Seq<u8>;

/// The Ed25519 public key of a secret key.
pub uninterp spec fn ed25519_public(secret: Seq<u8>) -> Seq<u8>;

/// The Ed25519 signature that a secret key makes over a message.
pub uninterp spec fn ed25519_signature(secret: Seq<u8>, message: Seq<u8>) -> Seq<u8>;

/// Whether a signature over a message is one by the owner of a public key.
pub uninterp spec fn signature_valid(key: Seq<u8>, message: Seq<u8>, signature: Seq<u8>) -> bool;

/// `blake3::hash`: the digest of the bytes, a function of the bytes alone.
#[verifier::external_body]
pub(crate) fn digest(b: &[u8]) -> (r: [u8; 32])
    ensures
        r@ == blake3_digest(b@),
{
    *blake3::hash(b).as_bytes()
}

/// `iroh::SecretKey::public` of the key with these bytes.
#[verifier::external_body]
pub(crate) fn public_key(secret: &[u8; 32]) -> (r: [u8; 32])
    ensures
        r@ == ed25519_public(secret@),
{
    *iroh::SecretKey::from_bytes(secret).public().as_bytes()
}

/// `iroh::SecretKey::sign` with the key of these bytes. Ed25519 signatures are deterministic, and
/// what a secret key signs verifies under its public key.
#[verifier::external_body]
pub(crate) fn sign(secret: &[u8; 32], message: &[u8]) -> (r: [u8; 64])
    ensures
        r@ == ed25519_signature(secret@, message@),
        signature_valid(ed25519_public(secret@), message@, r@),
{
    iroh::SecretKey::from_bytes(secret).sign(message).to_bytes()
}

/// `iroh::PublicKey::verify` under the key of these bytes; bytes that are no key verify nothing.
#[verifier::external_body]
pub(crate) fn verify(key: &[u8; 32], message: &[u8], signature: &[u8; 64]) -> (r: bool)
    ensures
        r == signature_valid(key@, message@, signature@),
{
    match iroh::PublicKey::from_bytes(key) {
        Ok(k) => k.verify(message, &iroh::Signature::from_bytes(signature)).is_ok(),
        Err(_) => false,
    }
}

/// `iroh::SecretKey::generate`: the bytes of a fresh key. Nothing is claimed of them.
#[verifier::external_body]
fn fresh_secret() -> (r: [u8; 32])
{
    iroh::SecretKey::generate().to_bytes()
}

/// `rand::Rng::fill_bytes` of the thread's generator: `n` random bytes. Nothing is claimed of them
/// but their number.
#[verifier::external_body]
fn random_bytes(n: usize) -> (r: Vec<u8>)
    ensures
        r@.len() == n,
{
    let mut b = vec![0u8; n];
    rand::Rng::fill_bytes(&mut rand::rng(), &mut b);
    b
}

/// Sixteen random bytes.
pub fn random_16() -> (r: [u8; 16])
    ensures
        r@.len() == 16,
{
    let b = random_bytes(16);
    node::fixed(b.as_slice())
}

/// Thirty-two random bytes.
pub fn random_32() -> (r: [u8; 32])
    ensures
        r@.len() == 32,
{
    let b = random_bytes(32);
    node::fixed(b.as_slice())
}

/// An install's identity: one Ed25519 key, for the transport and for signing tokens.
#[derive(Clone)]
pub struct Identity {
    secret: [u8; 32],
}

impl View for Identity {
    type V = Seq<u8>;

    closed spec fn view(&self) -> Seq<u8> {
        self.secret@
    }
}

impl Identity {
    /// The identity with the given secret key.
    pub fn from_seed(secret: [u8; 32]) -> (r: Self)
        ensures
            r@ == secret@,
    {
        Identity { secret }
    }

    /// A fresh identity.
    pub fn generate() -> (r: Self)
        ensures
            r@.len() == 32,
    {
        Identity { secret: fresh_secret() }
    }

    /// The identity kept in a key file with the given content: its first 32 bytes. A shorter file
    /// holds none.
    pub fn from_file(content: &[u8]) -> (r: Option<Self>)
        ensures
            r is Some == (content@.len() >= 32),
            r matches Some(i) ==> i@ == content@.take(32),
    {
        if content.len() < 32 {
            None
        } else {
            Some(Identity { secret: node::fixed(content) })
        }
    }

    /// The secret key.
    pub fn secret_key(&self) -> (r: &[u8; 32])
        ensures
            r@ == self@,
    {
        &self.secret
    }

    /// The public key, which is the node's identifier.
    pub fn nodeid(&self) -> (r: NodeId)
        ensures
            r@ == ed25519_public(self@),
    {
        NodeId(public_key(&self.secret))
    }

    /// What the public key file holds: the identifier in hexadecimal and a line end.
    pub fn public_key_file(&self) -> (r: String)
        ensures
            r@ == codec::hex_text(ed25519_public(self@)) + "\n"@,
    {
        self.nodeid().to_string().concat("\n")
    }
}

} // verus!
