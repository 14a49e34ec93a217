use wt::framing::{
    announced, body_length, encode_frame, frame_body, frame_bytes, header, read_cbor_frame, BodyRead,
    FrameError, HeaderRead, MAX_FRAME_BYTES, MAX_IPC_FRAME_BYTES,
};
use wt::ipc::{IpcError, IpcErrorCode};
use wt::node::{NodeId, NodeIdParseError};
use wt::ticket::{decode_ticket, encode_ticket, TicketError, TICKET_PREFIX};
use wt::token::Cap;

fn node(byte: u8) -> NodeId {
    NodeId([byte; 32])
}

#[test]
fn nodeid_display_parse_roundtrips() {
    let n = node(0xab);
    let s = n.to_string();

    assert_eq!(s.len(), 64);
    assert_eq!(s.parse::<NodeId>().unwrap(), n);
    assert!("zz".parse::<NodeId>().is_err());
    assert!("abcd".parse::<NodeId>().is_err());
}

#[test]
fn nodeid_errors_say_what_is_wrong() {
    assert_eq!(NodeId::parse("zz"), Err(NodeIdParseError::NotHex));
    assert_eq!(NodeId::parse("abc"), Err(NodeIdParseError::NotHex));
    assert_eq!(NodeId::parse("abcd"), Err(NodeIdParseError::WrongLength(2)));
    assert_eq!(
        NodeIdParseError::WrongLength(2).to_string(),
        "node id must be 32 bytes (64 hex chars), got 2"
    );
    assert_eq!(
        NodeId::parse(&"AB".repeat(32)).unwrap(),
        node(0xab)
    );
    assert_eq!(node(0xab).short_text(), "abababababab");
    assert_eq!(node(0xab).debug_text(), "NodeId(abababababab)");
}

#[test]
fn ticket_encode_decode_roundtrips_and_rejects_bad_inputs() {
    let address: Vec<u8> = (0u8..=255).collect();

    let encoded = encode_ticket(&address);
    assert!(encoded.starts_with(TICKET_PREFIX));

    let decoded = decode_ticket(&format!("  {encoded}\n")).unwrap();
    assert_eq!(decoded, address);

    assert!(decode_ticket("abc").is_err());
    assert!(decode_ticket("wt1:not-valid-base32!").is_err());
    // One byte of zeros: whoever decodes the address refuses it.
    assert_eq!(decode_ticket("wt1:AA").unwrap(), vec![0]);
}

#[test]
fn tickets_are_told_apart_from_what_is_none() {
    assert_eq!(decode_ticket("abc"), Err(TicketError::WrongPrefix));
    assert_eq!(decode_ticket("wt1:a"), Err(TicketError::Base32));
    assert_eq!(decode_ticket("wt1:AB"), Err(TicketError::Base32));
    assert_eq!(encode_ticket(b"foobar"), "wt1:MZXW6YTBOI");
    assert_eq!(encode_ticket(b""), "wt1:");
    assert_eq!(decode_ticket("wt1:").unwrap(), Vec::<u8>::new());
    assert_eq!(
        TicketError::WrongPrefix.to_string(),
        "ticket missing `wt1:` prefix"
    );
    assert_eq!(
        TicketError::Base32.to_string(),
        "ticket body is not valid base32"
    );
}

#[test]
fn cap_parse_display_is_strict() {
    assert_eq!("msg".parse::<Cap>().unwrap(), Cap::Msg);
    assert_eq!(Cap::Msg.to_string(), "msg");
    assert!("MSG".parse::<Cap>().is_err());
    assert!("exec".parse::<Cap>().is_err());
    assert_eq!(Cap::parse("exec").unwrap_err(), "unknown capability: exec");
}

#[test]
fn ipc_errors_keep_code_and_message() {
    let e = IpcError::new(IpcErrorCode::Expired, "token expired");
    assert_eq!(e.code, IpcErrorCode::Expired);
    assert_eq!(e.message, "token expired");
    assert_eq!(IpcError::internal("boom").to_string(), "boom");
    assert_eq!(IpcError::internal("boom").code, IpcErrorCode::Internal);
}

#[test]
fn frames_are_led_by_their_length() {
    assert_eq!(header(0x0102_0304), [1, 2, 3, 4]);
    assert_eq!(announced(&[1, 2, 3, 4]), 0x0102_0304);
    assert_eq!(frame_bytes(b"abc"), vec![0, 0, 0, 3, b'a', b'b', b'c']);
    let mut two = encode_frame(b"abc").unwrap();
    two.extend_from_slice(&encode_frame(b"").unwrap());
    let (first, read) = read_cbor_frame(&two).unwrap();
    assert_eq!(first, b"abc");
    assert_eq!(read, 7);
    let (second, more) = read_cbor_frame(&two[read..]).unwrap();
    assert!(second.is_empty());
    assert_eq!(more, 4);
    assert!(matches!(
        read_cbor_frame(&two[read + more..]),
        Err(FrameError::CleanEof)
    ));
}

#[test]
fn a_stream_ends_cleanly_only_between_two_frames() {
    for (cut, read) in [
        (&[0u8][..], 1),
        (&[0, 0, 0], 3),
        (&[0, 0, 0, 3], 0),
        (&[0, 0, 0, 3, 1], 1),
    ] {
        assert_eq!(
            read_cbor_frame(cut).unwrap_err().to_string(),
            format!("stream read error: stream finished early ({read} bytes read)")
        );
    }
    assert!(matches!(
        read_cbor_frame(&header(MAX_FRAME_BYTES + 1)),
        Err(FrameError::TooLarge(n)) if n == MAX_FRAME_BYTES + 1
    ));
    assert!(matches!(
        frame_body(BodyRead::Finished(0)),
        Err(FrameError::Read(m)) if m == "stream finished early (0 bytes read)"
    ));
    assert!(matches!(
        frame_body(BodyRead::Failed("reset".to_string())),
        Err(FrameError::Read(m)) if m == "reset"
    ));
    assert_eq!(frame_body(BodyRead::Full(vec![1, 2])).unwrap(), vec![1, 2]);
}

#[test]
fn frames_that_are_too_large_are_told_apart() {
    assert_eq!(
        FrameError::TooLarge(17).to_string(),
        "incoming frame too large: 17 bytes"
    );
    assert_eq!(
        FrameError::Oversized(17).to_string(),
        "frame too large: 17 bytes"
    );
}

#[test]
fn frames_that_are_too_long_are_refused() {
    let long = vec![0u8; MAX_FRAME_BYTES as usize + 1];
    assert!(matches!(
        encode_frame(&long),
        Err(FrameError::Oversized(n)) if n == MAX_FRAME_BYTES as u64 + 1
    ));
    assert!(encode_frame(&long[1..]).is_ok());
    let over = header(MAX_IPC_FRAME_BYTES + 1);
    assert!(matches!(
        body_length(HeaderRead::Full(over), MAX_IPC_FRAME_BYTES),
        Err(FrameError::TooLarge(_))
    ));
    assert_eq!(
        body_length(HeaderRead::Full(header(7)), MAX_FRAME_BYTES).unwrap(),
        7
    );
}

#[test]
fn a_stream_may_end_between_frames_only() {
    assert!(matches!(
        body_length(HeaderRead::Finished(0), MAX_FRAME_BYTES),
        Err(FrameError::CleanEof)
    ));
    assert!(matches!(
        body_length(HeaderRead::Finished(2), MAX_FRAME_BYTES),
        Err(FrameError::Read(_))
    ));
    assert!(matches!(
        body_length(HeaderRead::Failed("reset".to_string()), MAX_FRAME_BYTES),
        Err(FrameError::Read(_))
    ));
}
