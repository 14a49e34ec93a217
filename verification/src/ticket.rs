//! Tickets: a pasteable text with everything needed to dial a node.
//!
//! A ticket is `wt1:` and the base32 form of the encoded address.

use vstd::prelude::*;

use crate::codec;
use crate::text;

verus! {

/// What every ticket begins with.
pub const TICKET_PREFIX: &'static str = "wt1:";

/// Why a text is not a ticket, or an address could not be made into one.
#[derive(Debug, Clone, Copy, PartialEq, Eq, Structural)]
pub enum TicketError {
    /// The text does not begin with the prefix.
    WrongPrefix,
    /// What follows the prefix is not base32.
    Base32,
    /// The bytes are not an encoded address.
    Decode,
    /// The address could not be encoded.
    Encode,
}

impl TicketError {
    /// The error in words.
    pub fn to_string(&self) -> (r: String)
        ensures
            r@ == match *self {
                TicketError::WrongPrefix => "ticket missing `wt1:` prefix"@,
                TicketError::Base32 => "ticket body is not valid base32"@,
                TicketError::Decode => "ticket CBOR decode failed"@,
                TicketError::Encode => "ticket CBOR encode failed"@,
            },
    {
        match self {
            TicketError::WrongPrefix => "ticket missing `wt1:` prefix".to_owned(),
            TicketError::Base32 => "ticket body is not valid base32".to_owned(),
            TicketError::Decode => "ticket CBOR decode failed".to_owned(),
            TicketError::Encode => "ticket CBOR encode failed".to_owned(),
        }
    }
}

/// The ticket of an encoded address.
pub open spec fn ticket_text(address: Seq<u8>) -> Seq<char> {
    "wt1:"@ + codec::base32_text(address)
}

/// Writes the ticket of an encoded address.
pub fn encode_ticket(address: &[u8]) -> (r: String)
    requires
        address@.len() <= usize::MAX / 512,
    ensures
        r@ == ticket_text(address@),
{
    "wt1:".to_owned().concat(codec::base32_encode(address).as_str())
}

/// Reads the encoded address out of a ticket, which may have white space around it.
pub fn decode_ticket(s: &str) -> (r: Result<Vec<u8>, TicketError>)
    requires
        text::utf8(s@).len() <= usize::MAX / 8,
    ensures
        match r {
            Ok(address) => text::trimmed(s@) == ticket_text(address@),
            Err(TicketError::WrongPrefix) => !("wt1:"@.is_prefix_of(text::trimmed(s@))),
            Err(TicketError::Base32) => {
                &&& "wt1:"@.is_prefix_of(text::trimmed(s@))
                &&& forall|address: Seq<u8>| text::trimmed(s@) != #[trigger] ticket_text(address)
            },
            Err(_) => false,
        },
{
    let t = text::trim(s);
    let n = t.unicode_len();
    proof {
        reveal_strlit("wt1:");
    }
    if n < 4 || !text::str_eq(t.substring_char(0, 4), "wt1:") {
        assert(!("wt1:"@.is_prefix_of(t@))) by {
            if "wt1:"@.is_prefix_of(t@) {
                assert(t@.subrange(0, 4) =~= "wt1:"@);
            }
        }
        return Err(TicketError::WrongPrefix);
    }
    assert(t@ =~= "wt1:"@ + t@.skip(4));
    assert("wt1:"@.is_prefix_of(t@));
    let body = t.substring_char(4, n);
    assert(body@ =~= t@.skip(4));
    proof {
        text::lemma_trimmed_part(s@);
        text::lemma_utf8_part(t@, 4, n as int);
    }
    match codec::base32_decode(body) {
        Ok(address) => Ok(address),
        Err(_) => {
            assert forall|address: Seq<u8>| t@ != #[trigger] ticket_text(address) by {
                if t@ == ticket_text(address) {
                    assert(ticket_text(address).skip(4) =~= codec::base32_text(address));
                }
            }
            Err(TicketError::Base32)
        },
    }
}

/// No two addresses have the same ticket, so what is read is what was written.
pub proof fn law_ticket_injective(address: Seq<u8>, other: Seq<u8>)
    requires
        ticket_text(address) == ticket_text(other),
    ensures
        address == other,
{
    reveal_strlit("wt1:");
    assert(ticket_text(address).skip(4) =~= codec::base32_text(address));
    assert(ticket_text(other).skip(4) =~= codec::base32_text(other));
    codec::law_base32_injective(address, other);
}

/// A ticket begins with the prefix, and is read back to the address that it was written from, and to
/// no other, with white space around it or not.
pub proof fn law_ticket_is_read_back(
    before: Seq<char>,
    address: Seq<u8>,
    after: Seq<char>,
    read: Seq<u8>,
)
    requires
        forall|i: int| 0 <= i < before.len() ==> text::is_space(#[trigger] before[i]),
        forall|i: int| 0 <= i < after.len() ==> text::is_space(#[trigger] after[i]),
    ensures
        TICKET_PREFIX@.is_prefix_of(ticket_text(address)),
        text::trimmed(before + ticket_text(address) + after) == ticket_text(address),
        text::trimmed(before + ticket_text(address) + after) == ticket_text(read) ==> read
            == address,
{
    law_ticket_survives_padding(before, address, after);
    assert(ticket_text(address).take("wt1:"@.len() as int) =~= "wt1:"@);
    if ticket_text(address) == ticket_text(read) {
        law_ticket_injective(address, read);
    }
}

/// White space put around a ticket does not matter to its reader.
pub proof fn law_ticket_survives_padding(before: Seq<char>, address: Seq<u8>, after: Seq<char>)
    requires
        forall|i: int| 0 <= i < before.len() ==> text::is_space(#[trigger] before[i]),
        forall|i: int| 0 <= i < after.len() ==> text::is_space(#[trigger] after[i]),
    ensures
        text::trimmed(before + ticket_text(address) + after) == ticket_text(address),
{
    reveal_strlit("wt1:");
    let t = ticket_text(address);
    let n = codec::base32_text(address).len() as int;
    assert(t[0] == 'w');
    if n == 0 {
        assert(t.last() == ':');
    } else {
        assert(t.last() == codec::base32_text(address)[n - 1]);
        codec::lemma_quintet_range(address, n - 1);
    }
    text::law_trim_removes_padding(before, t, after);
}

} // verus!
