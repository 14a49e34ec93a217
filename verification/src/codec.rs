//! Bytes as text: hexadecimal and unpadded base32.

use vstd::prelude::*;

use crate::text;

verus! {

/// The lower-case digit of a number below sixteen.
pub open spec fn hex_digit(d: int) -> char {
    if d < 10 {
        ('0' as int + d) as char
    } else {
        ('a' as int + (d - 10)) as char
    }
}

/// The number that a hexadecimal digit of either case stands for.
pub open spec fn hex_value(c: char) -> Option<int> {
    if '0' <= c <= '9' {
        Some(c as int - '0' as int)
    } else if 'a' <= c <= 'f' {
        Some(c as int - 'a' as int + 10)
    } else if 'A' <= c <= 'F' {
        Some(c as int - 'A' as int + 10)
    } else {
        None
    }
}

/// Bytes in lower-case hexadecimal, two digits a byte, the high digit first.
pub open spec fn hex_text(b: Seq<u8>) -> Seq<char> {
    Seq::new(
        2 * b.len(),
        |i: int|
            if i % 2 == 0 {
                hex_digit(b[i / 2] as int / 16)
            } else {
                hex_digit(b[i / 2] as int % 16)
            },
    )
}

/// Whether `s` is an even number of hexadecimal digits.
pub open spec fn is_hex(s: Seq<char>) -> bool {
    &&& s.len() % 2 == 0
    &&& forall|i: int| 0 <= i < s.len() ==> hex_value(#[trigger] s[i]) is Some
}

/// The bytes that `s` writes in hexadecimal.
pub open spec fn hex_bytes(s: Seq<char>) -> Option<Seq<u8>> {
    if is_hex(s) {
        Some(
            Seq::new(
                s.len() / 2,
                |i: int| (hex_value(s[2 * i])->0 * 16 + hex_value(s[2 * i + 1])->0) as u8,
            ),
        )
    } else {
        None
    }
}

/// `hex::encode`: the bytes in lower-case hexadecimal.
#[verifier::external_body]
pub(crate) fn hex_encode(b: &[u8]) -> (r: String)
    ensures
        r@ == hex_text(b@),
{
    hex::encode(b)
}

/// Why a text is not hexadecimal.
#[derive(Debug, Clone, Copy, PartialEq, Eq, Structural)]
pub enum HexFault {
    /// The byte at a position, taken as a character, is no digit.
    Character { c: char, index: usize },
    /// An odd number of bytes.
    OddLength,
    /// A length other than the one asked for.
    StringLength,
}

/// Whether a fault is what keeps the bytes of a text from being hexadecimal: an odd number of them, or
/// else the first that is no digit.
pub open spec fn is_hex_fault(b: Seq<u8>, f: HexFault) -> bool {
    match f {
        HexFault::Character { c, index } => {
            &&& b.len() % 2 == 0
            &&& index < b.len()
            &&& c == b[index as int] as char
            &&& hex_value(c) is None
            &&& forall|i: int| 0 <= i < index ==> hex_value(#[trigger] b[i] as char) is Some
        },
        HexFault::OddLength => b.len() % 2 == 1,
        HexFault::StringLength => false,
    }
}

/// `hex::decode`: the bytes that `s` writes in hexadecimal of either case, and else why there are
/// none. An odd number of bytes is told before a byte that is no digit, and of those the first.
#[verifier::external_body]
pub(crate) fn hex_decode(s: &str) -> (r: Result<Vec<u8>, HexFault>)
    ensures
        r is Ok == is_hex(s@),
        match r {
            Ok(v) => Some(v@) == hex_bytes(s@),
            Err(f) => is_hex_fault(text::utf8(s@), f),
        },
{
    match hex::decode(s) {
        Ok(v) => Ok(v),
        Err(hex::FromHexError::InvalidHexCharacter { c, index }) => {
            Err(HexFault::Character { c, index })
        },
        Err(hex::FromHexError::OddLength) => Err(HexFault::OddLength),
        Err(hex::FromHexError::InvalidStringLength) => Err(HexFault::StringLength),
    }
}

/// What `std::fmt::Debug` writes for a character.
pub uninterp spec fn char_debug(c: char) -> Seq<char>;

/// `std::fmt::Debug` of a character: in single quotes, and escaped where it cannot be shown. Which
/// characters are escaped, and how, is left to the name.
#[verifier::external_body]
fn debug_of(c: char) -> (r: String)
    ensures
        r@ == char_debug(c),
{
    format!("{:?}", c)
}

/// A fault in words, of which `shown` is the character as it is shown.
pub open spec fn hex_fault_text(f: HexFault, shown: Seq<char>) -> Seq<char> {
    match f {
        HexFault::Character { c, index } => "Invalid character "@ + shown + " at position "@
            + text::decimal_text(index as nat),
        HexFault::OddLength => "Odd number of digits"@,
        HexFault::StringLength => "Invalid string length"@,
    }
}

/// What stands for the character of a fault, if there is one.
pub open spec fn shown_character(f: HexFault) -> Seq<char> {
    match f {
        HexFault::Character { c, index } => char_debug(c),
        _ => Seq::empty(),
    }
}

impl HexFault {
    /// The fault in words.
    pub fn to_string(&self) -> (r: String)
        ensures
            r@ == hex_fault_text(*self, shown_character(*self)),
    {
        let shown = match self {
            HexFault::Character { c, index: _ } => debug_of(*c),
            _ => "".to_owned(),
        };
        self.showing(shown.as_str())
    }

    /// The fault in words, with its character as it is shown.
    pub fn showing(&self, shown: &str) -> (r: String)
        ensures
            r@ == hex_fault_text(*self, shown@),
    {
        match self {
            HexFault::Character { c: _, index } => "Invalid character ".to_owned().concat(
                shown,
            ).concat(" at position ").concat(text::u64_text(*index as u64).as_str()),
            HexFault::OddLength => "Odd number of digits".to_owned(),
            HexFault::StringLength => "Invalid string length".to_owned(),
        }
    }
}

/// Bytes written in hexadecimal are read back unchanged.
pub proof fn law_hex_roundtrip(b: Seq<u8>)
    ensures
        hex_bytes(hex_text(b)) == Some(b),
{
    let s = hex_text(b);
    assert forall|i: int| 0 <= i < s.len() implies hex_value(#[trigger] s[i]) is Some by {
        lemma_hex_digit(b[i / 2] as int / 16);
        lemma_hex_digit(b[i / 2] as int % 16);
    }
    assert forall|i: int| 0 <= i < b.len() implies (hex_value(s[2 * i])->0 * 16 + hex_value(
        s[2 * i + 1],
    )->0) as u8 == #[trigger] b[i] by {
        assert((2 * i) / 2 == i && (2 * i + 1) / 2 == i);
        lemma_hex_digit(b[i] as int / 16);
        lemma_hex_digit(b[i] as int % 16);
    }
    assert(hex_bytes(s)->0 =~= b);
}

proof fn lemma_hex_digit(d: int)
    requires
        0 <= d < 16,
    ensures
        hex_value(hex_digit(d)) == Some(d),
{
}

/// Bit `i` of a byte string, the first byte's highest bit first; zero behind the end.
pub open spec fn bit_at(b: Seq<u8>, i: int) -> int {
    if i / 8 < b.len() {
        (b[i / 8] >> ((7 - i % 8) as u8)) as int % 2
    } else {
        0
    }
}

/// The `k`-th group of five bits, as a number.
pub open spec fn quintet(b: Seq<u8>, k: int) -> int {
    16 * bit_at(b, 5 * k) + 8 * bit_at(b, 5 * k + 1) + 4 * bit_at(b, 5 * k + 2) + 2 * bit_at(
        b,
        5 * k + 3,
    ) + bit_at(b, 5 * k + 4)
}

/// The symbol of a number below thirty-two: `A` to `Z`, then `2` to `7`.
pub open spec fn base32_symbol(d: int) -> char {
    if d < 26 {
        ('A' as int + d) as char
    } else {
        ('2' as int + (d - 26)) as char
    }
}

/// Bytes in base32 without padding: a symbol for every five bits, the last group filled with zeros.
pub open spec fn base32_text(b: Seq<u8>) -> Seq<char> {
    Seq::new((8 * b.len() + 4) / 5, |k: int| base32_symbol(quintet(b, k)))
}

/// `data_encoding::BASE32_NOPAD.encode`. The bound on the length is that of the encoder, which
/// panics beyond it.
#[verifier::external_body]
pub(crate) fn base32_encode(b: &[u8]) -> (r: String)
    requires
        b@.len() <= usize::MAX / 512,
    ensures
        r@ == base32_text(b@),
{
    data_encoding::BASE32_NOPAD.encode(b)
}

/// Why a text is not base32, and at which byte.
#[derive(Debug, Clone, Copy, PartialEq, Eq, Structural)]
pub enum Base32Fault {
    /// A length that no bytes have.
    Length(usize),
    /// A byte that is no symbol.
    Symbol(usize),
    /// Bits set behind the last byte.
    Trailing(usize),
    /// Padding of the wrong length.
    Padding(usize),
}

/// Whether a byte is a symbol of base32.
pub open spec fn is_base32(b: u8) -> bool {
    'A' <= b as char <= 'Z' || '2' <= b as char <= '7'
}

/// Whether no bytes have a text of the given length: five bits or more would be left over.
pub open spec fn no_base32_length(n: nat) -> bool {
    5 * n % 8 >= 5
}

/// Whether a fault is the first of those that the bytes of a text can have: a length that no bytes
/// have, told at the last byte; a byte that is no symbol, told where the first of them stands; bits
/// set behind the last byte, told at the last symbol.
pub open spec fn is_base32_fault(b: Seq<u8>, f: Base32Fault) -> bool {
    match f {
        Base32Fault::Length(at) => no_base32_length(b.len()) && at == b.len() - 1,
        Base32Fault::Symbol(at) => {
            &&& !no_base32_length(b.len())
            &&& at < b.len()
            &&& !is_base32(b[at as int])
            &&& forall|i: int| 0 <= i < at ==> is_base32(#[trigger] b[i])
        },
        Base32Fault::Trailing(at) => {
            &&& !no_base32_length(b.len())
            &&& at == b.len() - 1
            &&& forall|i: int| 0 <= i < b.len() ==> is_base32(#[trigger] b[i])
        },
        Base32Fault::Padding(_) => false,
    }
}

/// `data_encoding::BASE32_NOPAD.decode` on the bytes of `s`: the byte string whose encoding is `s`,
/// and where `s` is the encoding of no byte string, why not. A length is told before a symbol, and
/// that before bits that are left over. The bound on the length is that of the decoder, which panics
/// beyond it.
#[verifier::external_body]
pub(crate) fn base32_decode(s: &str) -> (r: Result<Vec<u8>, Base32Fault>)
    requires
        text::utf8(s@).len() <= usize::MAX / 8,
    ensures
        match r {
            Ok(v) => base32_text(v@) == s@,
            Err(f) => {
                &&& forall|b: Seq<u8>| #[trigger] base32_text(b) != s@
                &&& is_base32_fault(text::utf8(s@), f)
            },
        },
{
    match data_encoding::BASE32_NOPAD.decode(s.as_bytes()) {
        Ok(v) => Ok(v),
        Err(e) => Err(
            match e.kind {
                data_encoding::DecodeKind::Length => Base32Fault::Length(e.position),
                data_encoding::DecodeKind::Symbol => Base32Fault::Symbol(e.position),
                data_encoding::DecodeKind::Trailing => Base32Fault::Trailing(e.position),
                data_encoding::DecodeKind::Padding => Base32Fault::Padding(e.position),
            },
        ),
    }
}

/// A fault in words.
pub open spec fn base32_fault_text(f: Base32Fault) -> Seq<char> {
    match f {
        Base32Fault::Length(at) => "invalid length at "@ + text::decimal_text(at as nat),
        Base32Fault::Symbol(at) => "invalid symbol at "@ + text::decimal_text(at as nat),
        Base32Fault::Trailing(at) => "non-zero trailing bits at "@ + text::decimal_text(at as nat),
        Base32Fault::Padding(at) => "invalid padding length at "@ + text::decimal_text(at as nat),
    }
}

impl Base32Fault {
    /// The fault in words.
    pub fn to_string(&self) -> (r: String)
        ensures
            r@ == base32_fault_text(*self),
    {
        match self {
            Base32Fault::Length(at) => "invalid length at ".to_owned().concat(
                text::u64_text(*at as u64).as_str(),
            ),
            Base32Fault::Symbol(at) => "invalid symbol at ".to_owned().concat(
                text::u64_text(*at as u64).as_str(),
            ),
            Base32Fault::Trailing(at) => "non-zero trailing bits at ".to_owned().concat(
                text::u64_text(*at as u64).as_str(),
            ),
            Base32Fault::Padding(at) => "invalid padding length at ".to_owned().concat(
                text::u64_text(*at as u64).as_str(),
            ),
        }
    }
}

/// No two byte strings have the same base32 text, so what is decoded is what was encoded.
pub proof fn law_base32_injective(a: Seq<u8>, b: Seq<u8>)
    requires
        base32_text(a) == base32_text(b),
    ensures
        a == b,
{
    let n = a.len() as int;
    let m = b.len() as int;
    assert(base32_text(a).len() == (8 * n + 4) / 5);
    assert(base32_text(b).len() == (8 * m + 4) / 5);
    assert(n == m);
    assert forall|i: int| 0 <= i < 8 * a.len() implies #[trigger] bit_at(a, i) == bit_at(b, i) by {
        let k = i / 5;
        assert(0 <= k < (8 * n + 4) / 5);
        assert(base32_text(a)[k] == base32_symbol(quintet(a, k)));
        assert(base32_text(b)[k] == base32_symbol(quintet(b, k)));
        lemma_bits(a, 5 * k);
        lemma_bits(a, 5 * k + 1);
        lemma_bits(a, 5 * k + 2);
        lemma_bits(a, 5 * k + 3);
        lemma_bits(a, 5 * k + 4);
        lemma_bits(b, 5 * k);
        lemma_bits(b, 5 * k + 1);
        lemma_bits(b, 5 * k + 2);
        lemma_bits(b, 5 * k + 3);
        lemma_bits(b, 5 * k + 4);
        lemma_symbols(quintet(a, k), quintet(b, k));
        assert(quintet(a, k) == quintet(b, k));
        assert(i == 5 * k + i % 5);
    }
    assert forall|j: int| 0 <= j < a.len() implies a[j] == b[j] by {
        let x = a[j];
        let y = b[j];
        assert forall|t: int| 0 <= t < 8 implies #[trigger] bit_at(a, 8 * j + t) == (x >> ((7
            - t) as u8)) as int % 2 && bit_at(b, 8 * j + t) == (y >> ((7 - t) as u8)) as int % 2 by {
            assert((8 * j + t) / 8 == j && (8 * j + t) % 8 == t);
        }
        assert(bit_at(a, 8 * j) == bit_at(b, 8 * j));
        assert(bit_at(a, 8 * j + 0) == bit_at(b, 8 * j + 0));
        assert(bit_at(a, 8 * j + 1) == bit_at(b, 8 * j + 1));
        assert(bit_at(a, 8 * j + 2) == bit_at(b, 8 * j + 2));
        assert(bit_at(a, 8 * j + 3) == bit_at(b, 8 * j + 3));
        assert(bit_at(a, 8 * j + 4) == bit_at(b, 8 * j + 4));
        assert(bit_at(a, 8 * j + 5) == bit_at(b, 8 * j + 5));
        assert(bit_at(a, 8 * j + 6) == bit_at(b, 8 * j + 6));
        assert(bit_at(a, 8 * j + 7) == bit_at(b, 8 * j + 7));
        assert(x == y) by (bit_vector)
            requires
                (x >> 7u8) % 2 == (y >> 7u8) % 2,
                (x >> 6u8) % 2 == (y >> 6u8) % 2,
                (x >> 5u8) % 2 == (y >> 5u8) % 2,
                (x >> 4u8) % 2 == (y >> 4u8) % 2,
                (x >> 3u8) % 2 == (y >> 3u8) % 2,
                (x >> 2u8) % 2 == (y >> 2u8) % 2,
                (x >> 1u8) % 2 == (y >> 1u8) % 2,
                (x >> 0u8) % 2 == (y >> 0u8) % 2,
        ;
    }
    assert(a =~= b);
}

proof fn lemma_symbols(d: int, e: int)
    requires
        0 <= d < 32,
        0 <= e < 32,
        base32_symbol(d) == base32_symbol(e),
    ensures
        d == e,
{
}

/// A group of five bits is a number below thirty-two.
pub proof fn lemma_quintet_range(b: Seq<u8>, k: int)
    ensures
        0 <= quintet(b, k) < 32,
{
    lemma_bits(b, 5 * k);
    lemma_bits(b, 5 * k + 1);
    lemma_bits(b, 5 * k + 2);
    lemma_bits(b, 5 * k + 3);
    lemma_bits(b, 5 * k + 4);
}

proof fn lemma_bits(b: Seq<u8>, i: int)
    ensures
        0 <= bit_at(b, i) <= 1,
{
}

} // verus!
