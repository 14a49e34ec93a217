//! Node identifiers.

use vstd::prelude::*;

use crate::codec;
use crate::text;

verus! {

/// A 32-byte Ed25519 public key, the address of a peer.
#[derive(Debug, Clone, Copy, PartialEq, Eq, PartialOrd, Ord, Hash)]
pub struct NodeId(pub [u8; 32]);

impl View for NodeId {
    type V = Seq<u8>;

    open spec fn view(&self) -> Seq<u8> {
        self.0@
    }
}

/// Why a text is not a node identifier.
#[derive(Debug, Clone, Copy, PartialEq, Eq, Structural)]
pub enum NodeIdParseError {
    /// The text is not hexadecimal.
    NotHex,
    /// The text is the hexadecimal form of this many bytes.
    WrongLength(usize),
}

/// An error in words.
pub open spec fn node_error_text(e: NodeIdParseError) -> Seq<char> {
    match e {
        NodeIdParseError::NotHex => "node id is not valid hex"@,
        NodeIdParseError::WrongLength(n) => "node id must be 32 bytes (64 hex chars), got "@
            + text::decimal_text(n as nat),
    }
}

impl NodeIdParseError {
    /// The error in words.
    pub fn to_string(&self) -> (r: String)
        ensures
            r@ == node_error_text(*self),
    {
        match self {
            NodeIdParseError::NotHex => "node id is not valid hex".to_owned(),
            NodeIdParseError::WrongLength(n) => "node id must be 32 bytes (64 hex chars), got "
                .to_owned().concat(text::u64_text(*n as u64).as_str()),
        }
    }
}

/// The array of the first `N` bytes of `b`.
pub fn fixed<const N: usize>(b: &[u8]) -> (r: [u8; N])
    requires
        b@.len() >= N,
    ensures
        r@ == b@.take(N as int),
{
    let mut out = [0u8; N];
    let mut i: usize = 0;
    while i < N
        invariant
            i <= N,
            N <= b@.len(),
            forall|j: int| 0 <= j < i ==> out@[j] == b@[j],
        decreases N - i,
    {
        out[i] = b[i];
        i = i + 1;
    }
    assert(out@ =~= b@.take(N as int));
    out
}

impl NodeId {
    /// Whether the two identifiers are the same.
    pub fn same(&self, other: &NodeId) -> (r: bool)
        ensures
            r == (self@ == other@),
    {
        text::bytes_eq(self.0.as_slice(), other.0.as_slice())
    }

    /// The identifier in lower-case hexadecimal.
    pub fn to_string(&self) -> (r: String)
        ensures
            r@ == codec::hex_text(self@),
    {
        codec::hex_encode(self.0.as_slice())
    }

    /// The short form for logs: the first six bytes in hexadecimal.
    pub fn short_text(&self) -> (r: String)
        ensures
            r@ == codec::hex_text(self@.take(6)),
    {
        let head: [u8; 6] = fixed(self.0.as_slice());
        codec::hex_encode(head.as_slice())
    }

    /// The form for logs: `NodeId(` and the short form.
    pub fn debug_text(&self) -> (r: String)
        ensures
            r@ == "NodeId("@ + codec::hex_text(self@.take(6)) + ")"@,
    {
        "NodeId(".to_owned().concat(self.short_text().as_str()).concat(")")
    }

    /// Reads an identifier from its hexadecimal form, in either case.
    pub fn parse(s: &str) -> (r: Result<NodeId, NodeIdParseError>)
        ensures
            !codec::is_hex(s@) ==> r == Err::<NodeId, NodeIdParseError>(NodeIdParseError::NotHex),
            codec::is_hex(s@) ==> match r {
                Ok(n) => s@.len() == 64 && Some(n@) == codec::hex_bytes(s@),
                Err(NodeIdParseError::WrongLength(k)) => s@.len() != 64 && k == s@.len() / 2,
                Err(NodeIdParseError::NotHex) => false,
            },
    {
        match codec::hex_decode(s) {
            Err(_) => Err(NodeIdParseError::NotHex),
            Ok(bytes) => {
                if bytes.len() != 32 {
                    Err(NodeIdParseError::WrongLength(bytes.len()))
                } else {
                    let out: [u8; 32] = fixed(bytes.as_slice());
                    assert(bytes@.take(32) =~= bytes@);
                    Ok(NodeId(out))
                }
            },
        }
    }
}

impl std::str::FromStr for NodeId {
    type Err = NodeIdParseError;

    /// Reads an identifier from its hexadecimal form, as `parse` does.
    fn from_str(s: &str) -> (r: Result<NodeId, NodeIdParseError>)
        ensures
            !codec::is_hex(s@) ==> r == Err::<NodeId, NodeIdParseError>(NodeIdParseError::NotHex),
            codec::is_hex(s@) ==> match r {
                Ok(n) => s@.len() == 64 && Some(n@) == codec::hex_bytes(s@),
                Err(NodeIdParseError::WrongLength(k)) => s@.len() != 64 && k == s@.len() / 2,
                Err(NodeIdParseError::NotHex) => false,
            },
    {
        NodeId::parse(s)
    }
}

/// What an identifier is written as is read back as that identifier.
pub proof fn law_node_id_roundtrip(n: NodeId)
    ensures
        codec::hex_text(n@).len() == 64,
        codec::is_hex(codec::hex_text(n@)),
        codec::hex_bytes(codec::hex_text(n@)) == Some(n@),
{
    codec::law_hex_roundtrip(n@);
}

} // verus!
