//! Capability tokens: claims signed by the issuer with its Ed25519 key.

use vstd::prelude::*;

use crate::node::NodeId;

verus! {

/// One capability granted by a token.
#[derive(Debug, Clone, Copy, PartialEq, Eq, Structural)]
pub enum Cap {
    /// Open message streams to the issuer.
    Msg,
}

impl Cap {
    /// Reads a capability from its name.
    pub fn parse(s: &str) -> (r: Result<Cap, String>)
        ensures
            match r {
                Ok(c) => c is Msg && s@ == "msg"@,
                Err(e) => s@ != "msg"@ && e@ == "unknown capability: "@ + s@,
            },
    {
        if crate::text::str_eq(s, "msg") {
            Ok(Cap::Msg)
        } else {
            Err("unknown capability: ".to_owned().concat(s))
        }
    }

    /// The capability's name.
    pub fn to_string(&self) -> (r: String)
        ensures
            r@ == match *self {
                Cap::Msg => "msg"@,
            },
    {
        match self {
            Cap::Msg => "msg".to_owned(),
        }
    }
}

impl std::str::FromStr for Cap {
    type Err = String;

    /// Reads a capability from its name, as `parse` does.
    fn from_str(s: &str) -> (r: Result<Cap, String>)
        ensures
            match r {
                Ok(c) => c is Msg && s@ == "msg"@,
                Err(e) => s@ != "msg"@ && e@ == "unknown capability: "@ + s@,
            },
    {
        Cap::parse(s)
    }
}

/// A token's unique identifier, the key by which it is revoked.
pub type TokenId = [u8; 16];

/// The claims that are signed.
#[derive(Debug, Clone)]
pub struct CapabilityToken {
    /// The node that grants.
    pub iss: NodeId,
    /// The node that is granted.
    pub sub: NodeId,
    /// Unix epoch seconds.
    pub exp: u64,
    /// What is granted.
    pub caps: Vec<Cap>,
    /// The token's identifier.
    pub id: TokenId,
}

/// The model of a token's claims.
#[verifier::ext_equal]
pub struct ClaimsV {
    pub iss: Seq<u8>,
    pub sub: Seq<u8>,
    pub exp: u64,
    pub caps: Seq<Cap>,
    pub id: Seq<u8>,
}

impl View for CapabilityToken {
    type V = ClaimsV;

    open spec fn view(&self) -> ClaimsV {
        ClaimsV {
            iss: self.iss@,
            sub: self.sub@,
            exp: self.exp,
            caps: self.caps@,
            id: self.id@,
        }
    }
}

impl CapabilityToken {
    /// A copy of the claims.
    pub fn copied(&self) -> (r: Self)
        ensures
            r@ == self@,
    {
        CapabilityToken {
            iss: self.iss,
            sub: self.sub,
            exp: self.exp,
            caps: caps_copy(&self.caps),
            id: self.id,
        }
    }
}

/// A copy of a list of capabilities.
pub fn caps_copy(v: &Vec<Cap>) -> (r: Vec<Cap>)
    ensures
        r@ == v@,
{
    let mut r: Vec<Cap> = Vec::new();
    let mut i: usize = 0;
    while i < v.len()
        invariant
            i <= v.len(),
            r@ == v@.take(i as int),
        decreases v.len() - i,
    {
        r.push(v[i]);
        assert(v@.take(i + 1) =~= v@.take(i as int).push(v@[i as int]));
        i = i + 1;
    }
    assert(v@.take(i as int) =~= v@);
    r
}

/// Whether `caps` holds `want`.
pub fn has_cap(caps: &Vec<Cap>, want: Cap) -> (r: bool)
    ensures
        r == caps@.contains(want),
{
    let mut i: usize = 0;
    while i < caps.len()
        invariant
            i <= caps.len(),
            forall|j: int| 0 <= j < i ==> caps@[j] != want,
        decreases caps.len() - i,
    {
        if caps[i] == want {
            assert(caps@[i as int] == want);
            return true;
        }
        i = i + 1;
    }
    false
}

/// A token as it travels: the encoded claims and the issuer's signature over them.
#[derive(Debug, Clone)]
pub struct SignedToken {
    /// The encoded claims.
    pub claims_cbor: Vec<u8>,
    /// The 64-byte Ed25519 signature over the encoded claims.
    pub sig: Vec<u8>,
}

} // verus!
