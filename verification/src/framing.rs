//! Length-prefixed frames on a byte stream: the body's length in four bytes, the highest first, and
//! then the body.

use vstd::prelude::*;

use crate::text;

verus! {

/// The longest body between two nodes: 16 MiB.
pub const MAX_FRAME_BYTES: u32 = 16_777_216;

/// The longest body that the daemon reads from a client: 64 MiB.
pub const MAX_IPC_FRAME_BYTES: u32 = 67_108_864;

/// Why a frame could not be read or written.
#[derive(Debug, Clone)]
pub enum FrameError {
    /// The other side finished the stream between two frames.
    CleanEof,
    /// The frame that comes is longer than is allowed.
    TooLarge(u32),
    /// The frame that is to be written is longer than is allowed.
    Oversized(u64),
    /// The stream failed, or ended within a frame.
    Read(String),
}

impl FrameError {
    /// The error in words.
    pub fn to_string(&self) -> (r: String)
        ensures
            r@ == match *self {
                FrameError::CleanEof => "stream finished cleanly"@,
                FrameError::TooLarge(n) => "incoming frame too large: "@ + text::decimal_text(
                    n as nat,
                ) + " bytes"@,
                FrameError::Oversized(n) => "frame too large: "@ + text::decimal_text(n as nat)
                    + " bytes"@,
                FrameError::Read(e) => "stream read error: "@ + e@,
            },
    {
        match self {
            FrameError::CleanEof => "stream finished cleanly".to_owned(),
            FrameError::TooLarge(n) => "incoming frame too large: ".to_owned().concat(
                text::u64_text(*n as u64).as_str(),
            ).concat(" bytes"),
            FrameError::Oversized(n) => "frame too large: ".to_owned().concat(
                text::u64_text(*n).as_str(),
            ).concat(" bytes"),
            FrameError::Read(e) => "stream read error: ".to_owned().concat(e.as_str()),
        }
    }
}

/// A length in four bytes, the highest first.
pub open spec fn be_bytes(n: int) -> Seq<u8> {
    seq![
        (n / 0x100_0000) as u8,
        (n / 0x1_0000 % 0x100) as u8,
        (n / 0x100 % 0x100) as u8,
        (n % 0x100) as u8,
    ]
}

/// The length that four bytes write, the highest first.
pub open spec fn be_value(b: Seq<u8>) -> int {
    b[0] * 0x100_0000 + b[1] * 0x1_0000 + b[2] * 0x100 + b[3]
}

/// The frame of a body.
pub open spec fn frame_of(body: Seq<u8>) -> Seq<u8> {
    be_bytes(body.len() as int) + body
}

/// The header of a body.
pub fn header(len: u32) -> (r: [u8; 4])
    ensures
        r@ == be_bytes(len as int),
{
    let r = [
        (len / 0x100_0000) as u8,
        (len / 0x1_0000 % 0x100) as u8,
        (len / 0x100 % 0x100) as u8,
        (len % 0x100) as u8,
    ];
    assert(r@ =~= be_bytes(len as int));
    r
}

/// The length that a header announces.
pub fn announced(h: &[u8; 4]) -> (r: u32)
    ensures
        r == be_value(h@),
{
    (h[0] as u32) * 0x100_0000 + (h[1] as u32) * 0x1_0000 + (h[2] as u32) * 0x100 + (h[3] as u32)
}

/// Whether this is what is written for a body between two nodes.
pub open spec fn frame_written(body: Seq<u8>, r: Result<Vec<u8>, FrameError>) -> bool {
    match r {
        Ok(f) => body.len() <= MAX_FRAME_BYTES && f@ == frame_of(body),
        Err(FrameError::Oversized(n)) => body.len() > MAX_FRAME_BYTES && n == body.len(),
        Err(_) => false,
    }
}

/// The bytes to write for a body between two nodes.
pub fn encode_frame(body: &[u8]) -> (r: Result<Vec<u8>, FrameError>)
    ensures
        frame_written(body@, r),
{
    if body.len() > MAX_FRAME_BYTES as usize {
        return Err(FrameError::Oversized(body.len() as u64));
    }
    Ok(frame_bytes(body))
}

/// The bytes to write for a body, whatever its length.
pub fn frame_bytes(body: &[u8]) -> (r: Vec<u8>)
    requires
        body@.len() <= u32::MAX,
    ensures
        r@ == frame_of(body@),
{
    let h = header(body.len() as u32);
    let mut out = text::bytes_copy(h.as_slice());
    out.extend_from_slice(body);
    assert(out@ =~= frame_of(body@));
    out
}

/// That a stream finished too early, in words: after so many of the bytes that were to be read.
pub open spec fn finished_text(read: nat) -> Seq<char> {
    "stream finished early ("@ + text::decimal_text(read) + " bytes read)"@
}

fn finished_early(read: usize) -> (r: FrameError)
    ensures
        r matches FrameError::Read(m) && m@ == finished_text(read as nat),
{
    FrameError::Read(
        "stream finished early (".to_owned().concat(text::u64_text(read as u64).as_str()).concat(
            " bytes read)",
        ),
    )
}

/// How reading a header ended.
pub enum HeaderRead {
    /// All four bytes came.
    Full([u8; 4]),
    /// The stream finished after so many bytes.
    Finished(usize),
    /// The stream failed.
    Failed(String),
}

/// Whether this is what follows a header.
pub open spec fn header_read(h: HeaderRead, max: u32, r: Result<u32, FrameError>) -> bool {
    match h {
        HeaderRead::Full(b) => if be_value(b@) <= max {
            r matches Ok(n) && n == be_value(b@)
        } else {
            r matches Err(FrameError::TooLarge(n)) && n == be_value(b@)
        },
        HeaderRead::Finished(k) => if k == 0 {
            r matches Err(FrameError::CleanEof)
        } else {
            r matches Err(FrameError::Read(m)) && m@ == finished_text(k as nat)
        },
        HeaderRead::Failed(e) => r matches Err(FrameError::Read(m)) && m@ == e@,
    }
}

/// What follows a header: the length of the body to read, or why there is none. The stream may end
/// only before the first byte of a header.
pub fn body_length(h: HeaderRead, max: u32) -> (r: Result<u32, FrameError>)
    ensures
        header_read(h, max, r),
{
    match h {
        HeaderRead::Full(b) => {
            let n: u32 = announced(&b);
            if n > max {
                Err(FrameError::TooLarge(n))
            } else {
                Ok(n)
            }
        },
        HeaderRead::Finished(k) => if k == 0 {
            Err(FrameError::CleanEof)
        } else {
            Err(finished_early(k))
        },
        HeaderRead::Failed(e) => Err(FrameError::Read(e)),
    }
}

/// How reading a body ended.
pub enum BodyRead {
    /// All bytes came.
    Full(Vec<u8>),
    /// The stream finished after so many bytes.
    Finished(usize),
    /// The stream failed.
    Failed(String),
}

/// Whether this is what follows a body.
pub open spec fn body_read(b: BodyRead, r: Result<Vec<u8>, FrameError>) -> bool {
    match b {
        BodyRead::Full(v) => r matches Ok(w) && w@ == v@,
        BodyRead::Finished(k) => r matches Err(FrameError::Read(m)) && m@ == finished_text(
            k as nat,
        ),
        BodyRead::Failed(e) => r matches Err(FrameError::Read(m)) && m@ == e@,
    }
}

/// What follows a body: the body itself, or why there is none. A stream that ends within a body, or
/// before its first byte, has not ended cleanly: the header announced what is missing.
pub fn frame_body(b: BodyRead) -> (r: Result<Vec<u8>, FrameError>)
    ensures
        body_read(b, r),
{
    match b {
        BodyRead::Full(v) => Ok(v),
        BodyRead::Finished(k) => Err(finished_early(k)),
        BodyRead::Failed(e) => Err(FrameError::Read(e)),
    }
}

/// What the first frame in a byte string is.
pub open spec fn first_frame(b: Seq<u8>, max: u32) -> Option<(Seq<u8>, Seq<u8>)> {
    if b.len() < 4 || be_value(b) > max || b.len() < 4 + be_value(b) {
        None
    } else {
        Some((b.subrange(4, 4 + be_value(b)), b.skip(4 + be_value(b))))
    }
}

/// Whether this is what the first frame of a stream is read as, and how many bytes it took.
pub open spec fn frame_read(stream: Seq<u8>, r: Result<(Vec<u8>, usize), FrameError>) -> bool {
    match r {
        Ok(p) => {
            &&& first_frame(stream, MAX_FRAME_BYTES) == Some(
                (p.0@, stream.skip(p.1 as int)),
            )
            &&& p.1 == 4 + p.0@.len()
        },
        Err(FrameError::CleanEof) => stream.len() == 0,
        Err(FrameError::TooLarge(n)) => stream.len() >= 4 && n == be_value(stream) && n
            > MAX_FRAME_BYTES,
        Err(FrameError::Read(m)) => if stream.len() < 4 {
            0 < stream.len() && m@ == finished_text(stream.len())
        } else {
            &&& be_value(stream) <= MAX_FRAME_BYTES
            &&& stream.len() < 4 + be_value(stream)
            &&& m@ == finished_text((stream.len() - 4) as nat)
        },
        Err(FrameError::Oversized(_)) => false,
    }
}

/// Reads the first frame of a stream between two nodes that yields the given bytes and then finishes.
/// Returns the body, and how many bytes were read.
pub fn read_cbor_frame(stream: &[u8]) -> (r: Result<(Vec<u8>, usize), FrameError>)
    ensures
        frame_read(stream@, r),
{
    let header = if stream.len() < 4 {
        HeaderRead::Finished(stream.len())
    } else {
        let h: [u8; 4] = crate::node::fixed(stream);
        assert(be_value(h@) == be_value(stream@));
        HeaderRead::Full(h)
    };
    let n: usize = match body_length(header, MAX_FRAME_BYTES) {
        Ok(n) => n as usize,
        Err(e) => return Err(e),
    };
    let body = if stream.len() - 4 < n {
        BodyRead::Finished(stream.len() - 4)
    } else {
        BodyRead::Full(text::bytes_copy(vstd::slice::slice_subrange(stream, 4, 4 + n)))
    };
    match frame_body(body) {
        Ok(v) => Ok((v, 4 + n)),
        Err(e) => Err(e),
    }
}

/// A frame that was written is read back as its body, and what follows it is left for the next
/// reader.
pub proof fn law_frame_roundtrip(body: Seq<u8>, rest: Seq<u8>, max: u32)
    requires
        body.len() <= max,
    ensures
        first_frame(frame_of(body) + rest, max) == Some((body, rest)),
{
    let b = frame_of(body) + rest;
    let n = body.len() as int;
    assert(0 <= n < 0x1_0000_0000);
    assert((n / 0x100_0000) * 0x100_0000 + (n / 0x1_0000 % 0x100) * 0x1_0000 + (n / 0x100 % 0x100)
        * 0x100 + n % 0x100 == n);
    assert(b[0] == be_bytes(n)[0] && b[1] == be_bytes(n)[1] && b[2] == be_bytes(n)[2] && b[3]
        == be_bytes(n)[3]);
    assert(be_value(b) == n);
    assert(b.subrange(4, 4 + n) =~= body);
    assert(b.skip(4 + n) =~= rest);
}

/// A frame is the length of its body in four bytes, the highest first, and the body as it is.
pub proof fn law_frame_is_length_and_body(body: Seq<u8>)
    requires
        body.len() <= u32::MAX,
    ensures
        ({
            let f = frame_of(body);
            &&& f.len() == 4 + body.len()
            &&& f[0] * 0x100_0000 + f[1] * 0x1_0000 + f[2] * 0x100 + f[3] == body.len()
            &&& f.skip(4) == body
        }),
{
    let n = body.len() as int;
    let f = frame_of(body);
    assert((n / 0x100_0000) * 0x100_0000 + (n / 0x1_0000 % 0x100) * 0x1_0000 + (n / 0x100 % 0x100)
        * 0x100 + n % 0x100 == n);
    assert(f[0] == be_bytes(n)[0] && f[1] == be_bytes(n)[1] && f[2] == be_bytes(n)[2] && f[3]
        == be_bytes(n)[3]);
    assert(f.skip(4) =~= body);
}

/// A frame is read exactly where its header, and as much behind it as that announces, are there, and
/// no more is announced than is taken. What follows is left.
pub proof fn law_frame_is_read_where_it_is_whole(b: Seq<u8>, max: u32)
    requires
        b.len() >= 4,
    ensures
        ({
            let n = b[0] * 0x100_0000 + b[1] * 0x1_0000 + b[2] * 0x100 + b[3];
            &&& first_frame(b, max) is Some <==> n <= max && b.len() >= 4 + n
            &&& first_frame(b, max) matches Some(f) ==> {
                let (body, rest) = f;
                &&& body.len() == n
                &&& b == b.take(4) + body + rest
            }
        }),
{
    if let Some((body, rest)) = first_frame(b, max) {
        assert(b =~= b.take(4) + body + rest);
    }
}

/// A body is written where it is no longer than sixteen mebibytes, and what is written is its frame;
/// else its length is told.
pub proof fn law_long_bodies_are_not_written(body: Seq<u8>, r: Result<Vec<u8>, FrameError>)
    requires
        frame_written(body, r),
    ensures
        r is Ok <==> body.len() <= 16 * 1024 * 1024,
        r matches Ok(f) ==> f@.len() == 4 + body.len() && f@.skip(4) == body,
        r matches Err(e) ==> e is Oversized && e->Oversized_0 == body.len(),
{
    if let Ok(f) = r {
        law_frame_is_length_and_body(body);
    }
}

/// A header is followed by as many bytes as it announces, where that is allowed. A stream that ends
/// before a header has ended cleanly, and one that ends within one has not.
pub proof fn law_header_says_what_follows(h: HeaderRead, max: u32, r: Result<u32, FrameError>)
    requires
        header_read(h, max, r),
    ensures
        h matches HeaderRead::Full(b) ==> {
            let n = b@[0] * 0x100_0000 + b@[1] * 0x1_0000 + b@[2] * 0x100 + b@[3];
            &&& n <= max ==> (r matches Ok(k) && k == n)
            &&& n > max ==> (r matches Err(e) && e is TooLarge && e->TooLarge_0 == n)
        },
        h == HeaderRead::Finished(0) ==> (r matches Err(e) && e is CleanEof),
        h matches HeaderRead::Finished(k) ==> k > 0 ==> (r matches Err(FrameError::Read(m)) && m@
            == "stream finished early ("@ + text::decimal_text(k as nat) + " bytes read)"@),
        h matches HeaderRead::Failed(w) ==> (r matches Err(FrameError::Read(m)) && m@ == w@),
{
}

/// A body is taken as it came, where it came whole; a stream that ended or failed within it is told.
pub proof fn law_body_is_taken_whole(b: BodyRead, r: Result<Vec<u8>, FrameError>)
    requires
        body_read(b, r),
    ensures
        b matches BodyRead::Full(v) ==> (r matches Ok(w) && w@ == v@),
        b matches BodyRead::Finished(k) ==> (r matches Err(FrameError::Read(m)) && m@
            == "stream finished early ("@ + text::decimal_text(k as nat) + " bytes read)"@),
        b matches BodyRead::Failed(w) ==> (r matches Err(FrameError::Read(m)) && m@ == w@),
{
}

/// What was written as a frame is read from the stream as its body, and nothing behind it is taken.
pub proof fn law_written_frame_is_read(
    body: Seq<u8>,
    rest: Seq<u8>,
    r: Result<(Vec<u8>, usize), FrameError>,
)
    requires
        body.len() <= 16 * 1024 * 1024,
        frame_read(frame_of(body) + rest, r),
    ensures
        r matches Ok((b, n)) && b@ == body && n == 4 + body.len(),
{
    law_frame_roundtrip(body, rest, MAX_FRAME_BYTES);
    law_frame_is_length_and_body(body);
    let s = frame_of(body) + rest;
    assert(be_value(s) == be_value(frame_of(body)));
    assert(s.len() >= 4 + body.len());
}

/// An empty stream has ended cleanly; one that ends within a frame has not.
pub proof fn law_cut_stream_is_told(stream: Seq<u8>, r: Result<(Vec<u8>, usize), FrameError>)
    requires
        frame_read(stream, r),
    ensures
        stream.len() == 0 <==> (r matches Err(e) && e is CleanEof),
        0 < stream.len() < 4 ==> (r matches Err(FrameError::Read(m)) && m@ == finished_text(
            stream.len(),
        )),
{
}

} // verus!
