use wt::cli::{
    ago_at, agent_kind_str, chat_payload, env_or, exit_code_for, grant_request, list_filter,
    parse_agent_kind, parse_duration, parse_token_id, peer_reference, peer_selector, plan_send,
    recv_request, require_token, resolve_fs_mode, send_request, since_at, since_to_ms, CliError,
    PeerReference, SendPlan, SpawnFlags,
};
use wt::clock::unix_ms;
use wt::codec::{Base32Fault, HexFault};
use wt::commands::{plan, Command, Plan, Surroundings};
use wt::display::{Await, Listing};
use wt::ipc::{AgentMsgKind, FsMode, IpcErrorCode, IpcRequest, PeerFilter, PeerSelector};
use wt::node::{NodeId, NodeIdParseError};
use wt::ticket::encode_ticket;

fn text(s: &str) -> Option<String> {
    Some(s.to_string())
}

#[test]
fn parse_duration_accepts_supported_units() {
    assert_eq!(parse_duration("0s").unwrap(), 0);
    assert_eq!(parse_duration("5s").unwrap(), 5);
    assert_eq!(parse_duration("2m").unwrap(), 120);
    assert_eq!(parse_duration("3h").unwrap(), 10_800);
    assert_eq!(parse_duration("4d").unwrap(), 345_600);
}

#[test]
fn parse_duration_rejects_empty_unknown_and_overflow() {
    assert!(parse_duration("").is_err());
    assert!(parse_duration("h").is_err());
    assert!(parse_duration("10w").is_err());
    assert!(parse_duration("10ms").is_err());
    assert!(parse_duration("18446744073709551615d").is_err());
}

#[test]
fn durations_report_what_is_wrong_with_them() {
    let said = |s: &str| parse_duration(s).unwrap_err().to_string();
    assert_eq!(said("  "), "empty duration");
    assert_eq!(said("h"), "bad duration number");
    assert_eq!(said("-5m"), "bad duration number");
    assert_eq!(said("10w"), "unknown duration unit: w");
    assert_eq!(said("5\u{b5}"), "unknown duration unit: \u{b5}");
    assert_eq!(said("18446744073709551615d"), "duration is too large");
    assert_eq!(parse_duration(" +7m\n").unwrap(), 420);
    assert_eq!(parse_duration("18446744073709551615s").unwrap(), u64::MAX);
}

#[test]
fn peer_selector_uses_nodeid_when_hex_is_valid() {
    let node = NodeId([0xab; 32]);
    match peer_selector(&node.to_string()) {
        PeerSelector::NodeId(parsed) => assert_eq!(parsed, node),
        other => panic!("expected nodeid selector, got {other:?}"),
    }

    match peer_selector("alice") {
        PeerSelector::Name(name) => assert_eq!(name, "alice"),
        other => panic!("expected name selector, got {other:?}"),
    }
}

#[test]
fn exit_codes_tell_failures_apart() {
    assert_eq!(exit_code_for(IpcErrorCode::Internal), 1);
    assert_eq!(exit_code_for(IpcErrorCode::BadRequest), 2);
    assert_eq!(exit_code_for(IpcErrorCode::Unauthorized), 3);
    assert_eq!(exit_code_for(IpcErrorCode::Expired), 3);
    assert_eq!(exit_code_for(IpcErrorCode::Revoked), 3);
    assert_eq!(exit_code_for(IpcErrorCode::PeerNotKnown), 3);
    assert_eq!(exit_code_for(IpcErrorCode::NotFound), 4);
    assert_eq!(exit_code_for(IpcErrorCode::Unimplemented), 5);
}

#[test]
fn moments_reach_back_but_not_before_the_epoch() {
    assert_eq!(since_at(Some("5s"), 10_000).unwrap(), Some(5_000));
    assert_eq!(since_at(Some("1h"), 10_000).unwrap(), Some(0));
    assert_eq!(
        since_at(Some("18446744073709551615s"), 10_000).unwrap(),
        Some(0)
    );
    assert_eq!(since_at(None, 10_000).unwrap(), None);
    assert!(since_at(Some("soon"), 10_000).is_err());
    let before = unix_ms();
    let t = since_to_ms(Some("1s")).unwrap().unwrap();
    assert!(t + 1000 >= before);
}

#[test]
fn ago_is_told_in_the_largest_unit() {
    assert_eq!(ago_at(5_000, 5_999), "now");
    assert_eq!(ago_at(9_000, 5_000), "now");
    assert_eq!(ago_at(0, 59_999), "59s ago");
    assert_eq!(ago_at(0, 60_000), "1m ago");
    assert_eq!(ago_at(0, 3_599_999), "59m ago");
    assert_eq!(ago_at(0, 90_000_000), "25h ago");
}

#[test]
fn flags_come_before_the_environment_and_blanks_do_not_count() {
    assert_eq!(env_or(text("a"), text("b")), text("a"));
    assert_eq!(env_or(None, text("b")), text("b"));
    assert_eq!(env_or(text(""), text("b")), text("b"));
    assert_eq!(env_or(None, text("")), None);
    assert_eq!(require_token(None, text("t")).unwrap(), "t");
    assert_eq!(
        require_token(None, None).unwrap_err().to_string(),
        "no wt token — pass --token or set WT_TOKEN"
    );
}

#[test]
fn message_kinds_are_read_strictly() {
    for (name, kind) in [
        ("user", AgentMsgKind::User),
        ("turn_input", AgentMsgKind::TurnInput),
        ("turn_output", AgentMsgKind::TurnOutput),
        ("control", AgentMsgKind::Control),
        ("trace", AgentMsgKind::Trace),
    ] {
        assert_eq!(parse_agent_kind(name).unwrap(), kind);
        assert_eq!(agent_kind_str(kind), name);
    }
    assert_eq!(
        parse_agent_kind("User").unwrap_err().to_string(),
        "unknown message kind 'User' (user|turn_input|turn_output|control|trace)"
    );
}

#[test]
fn workspace_modes_follow_the_flags_and_then_the_directory() {
    assert_eq!(resolve_fs_mode(true, false, false).unwrap(), FsMode::Worktree);
    assert_eq!(resolve_fs_mode(false, true, true).unwrap(), FsMode::New);
    assert_eq!(resolve_fs_mode(false, false, true).unwrap(), FsMode::Worktree);
    assert_eq!(resolve_fs_mode(false, false, false).unwrap(), FsMode::New);
    assert_eq!(
        resolve_fs_mode(true, true, true).unwrap_err().to_string(),
        "--worktree and --new are mutually exclusive"
    );
}

#[test]
fn list_filters_have_an_order() {
    assert_eq!(list_filter(true, true, true), PeerFilter::Connected);
    assert_eq!(list_filter(true, true, false), PeerFilter::Remote);
    assert_eq!(list_filter(false, true, false), PeerFilter::Local);
    assert_eq!(list_filter(false, false, false), PeerFilter::All);
}

#[test]
fn token_ids_are_sixteen_bytes_in_hex() {
    assert_eq!(parse_token_id(&"0a".repeat(16)).unwrap(), [10; 16]);
    assert_eq!(
        parse_token_id("xyz").unwrap_err().to_string(),
        "token id is not hex: Odd number of digits"
    );
    assert_eq!(
        parse_token_id("0a").unwrap_err().to_string(),
        "token id must be 16 bytes (32 hex chars)"
    );
}

#[test]
fn peers_are_added_by_ticket_or_identifier() {
    let ticket = encode_ticket(b"address");
    assert!(matches!(
        peer_reference(&format!(" {ticket}\n")),
        Ok(PeerReference::Address(a)) if a == b"address"
    ));
    let id = NodeId([7; 32]);
    assert!(matches!(
        peer_reference(&id.to_string()),
        Ok(PeerReference::Node(n)) if n == id
    ));
    assert_eq!(
        peer_reference("wt1:!").unwrap_err().to_string(),
        "decode ticket: ticket body is not valid base32"
    );
    assert!(matches!(
        peer_reference("bob"),
        Err(CliError::BadNodeId(NodeIdParseError::NotHex))
    ));
    assert!(matches!(
        peer_reference("abcd"),
        Err(CliError::BadNodeId(NodeIdParseError::WrongLength(2)))
    ));
}

#[test]
fn what_is_wrong_with_a_text_is_told() {
    let id = |s: &str| parse_token_id(s).unwrap_err().to_string();
    assert_eq!(id("0g1h"), "token id is not hex: Invalid character 'g' at position 1");
    assert_eq!(id("\n0"), "token id is not hex: Invalid character '\\n' at position 0");
    assert_eq!(id("\u{fc}"), "token id is not hex: Invalid character '\u{c3}' at position 0");
    assert_eq!(id("g"), "token id is not hex: Odd number of digits");
    assert_eq!(
        HexFault::Character { c: 'g', index: 7 }.showing("<g>"),
        "Invalid character <g> at position 7"
    );
    assert_eq!(HexFault::StringLength.to_string(), "Invalid string length");

    let token = |s: &str| {
        plan(Command::TokenImport { token: s.to_string() }, around())
            .err()
            .unwrap()
            .to_string()
    };
    let lead = "token is not valid base32 (no padding): ";
    assert_eq!(token("A!A"), format!("{lead}invalid length at 2"));
    assert_eq!(token("AA1!"), format!("{lead}invalid symbol at 2"));
    assert_eq!(token("MZXW6==="), format!("{lead}invalid symbol at 5"));
    assert_eq!(token(" AB\n"), format!("{lead}non-zero trailing bits at 1"));
    assert_eq!(
        Base32Fault::Padding(3).to_string(),
        "invalid padding length at 3"
    );
    assert_eq!(
        peer_reference("bob").err().unwrap().to_string(),
        "parse NodeId hex (or pass a wt1:\u{2026} ticket): node id is not valid hex"
    );
}

#[test]
fn a_session_and_a_token_select_the_bus() {
    match plan_send(text("hi"), None, None, text("fe"), text("tok"), "turn_input").unwrap() {
        SendPlan::Agent {
            token,
            session,
            kind,
            body,
        } => {
            assert_eq!((token.as_str(), session.as_str()), ("tok", "fe"));
            assert_eq!(kind, AgentMsgKind::TurnInput);
            assert_eq!(body, text("hi"));
        }
        other => panic!("expected the bus, got {other:?}"),
    }
    match plan_send(text("bob"), text("yo"), None, text("fe"), None, "user").unwrap() {
        SendPlan::Peer {
            peer,
            channel,
            body,
        } => {
            assert!(matches!(peer, PeerSelector::Name(n) if n == "bob"));
            assert_eq!(channel, "default");
            assert_eq!(body, text("yo"));
        }
        other => panic!("expected a peer, got {other:?}"),
    }
    assert!(matches!(
        plan_send(None, None, None, None, None, "user"),
        Err(CliError::NoPeer)
    ));
    let p = plan_send(text("bob"), None, text("ops"), None, None, "user").unwrap();
    match send_request(p, b"from stdin".to_vec()) {
        IpcRequest::Send {
            channel, payload, ..
        } => {
            assert_eq!(channel, "ops");
            assert_eq!(payload, b"from stdin");
        }
        other => panic!("unexpected request {other:?}"),
    }
}

#[test]
fn readers_of_the_bus_consume_unless_they_look_back() {
    let ask = |since: Option<String>, all: bool| {
        recv_request(None, None, false, since, None, text("tok"), all, 100_000).unwrap()
    };
    assert!(matches!(
        ask(None, false),
        IpcRequest::AgentRecv { consume: true, since_ms: None, .. }
    ));
    assert!(matches!(
        ask(None, true),
        IpcRequest::AgentRecv { consume: false, since_ms: None, .. }
    ));
    assert!(matches!(
        ask(text("10s"), false),
        IpcRequest::AgentRecv { consume: false, since_ms: Some(90_000), .. }
    ));
    assert!(matches!(
        recv_request(text("bob"), text("ops"), true, None, None, None, false, 5),
        Ok(IpcRequest::RecvSubscribe {
            peer: Some(PeerSelector::Name(_)),
            channel: Some(_),
            since_ms: None,
            follow: true
        })
    ));
}

#[test]
fn grants_read_capabilities_before_the_time_to_live() {
    let caps = vec!["msg".to_string()];
    assert!(matches!(
        grant_request("bob", &caps, text("24h")),
        Ok(IpcRequest::TokenGrant { ttl_secs: Some(86_400), caps, .. }) if caps.len() == 1
    ));
    let bad = vec!["msg".to_string(), "exec".to_string()];
    assert_eq!(
        grant_request("bob", &bad, text("nonsense"))
            .unwrap_err()
            .to_string(),
        "unknown capability: exec"
    );
    assert!(matches!(
        grant_request("bob", &caps, text("nonsense")),
        Err(CliError::BadDurationNumber(_))
    ));
}

#[test]
fn chat_lines_lose_their_line_ends_only() {
    assert_eq!(chat_payload("  hi \n"), b"  hi ".to_vec());
    assert_eq!(chat_payload("a\n\n"), b"a".to_vec());
    assert_eq!(chat_payload(""), Vec::<u8>::new());
}

fn around() -> Surroundings {
    Surroundings {
        token: None,
        session: None,
        group: None,
        now_ms: 1_000_000,
    }
}

fn flags() -> SpawnFlags {
    SpawnFlags {
        session: "fe".to_string(),
        dir: "/app".to_string(),
        worktree: false,
        new: true,
        in_repository: false,
        prompt: None,
        idle_timeout: None,
        permission_mode: None,
        plan: true,
        skip_permissions: false,
        trace: true,
        coordinator: false,
    }
}

#[test]
fn commands_come_to_their_requests() {
    assert!(matches!(
        plan(Command::Status, around()),
        Ok(Plan::Ask { request: IpcRequest::Status, awaits: Await::Status, heading: None })
    ));
    assert!(matches!(
        plan(
            Command::Ls { remote: false, local: false, connected: false, group: text("g") },
            around()
        ),
        Ok(Plan::Ask {
            request: IpcRequest::SessionList { .. },
            heading: Some(Listing::Sessions),
            ..
        })
    ));
    assert!(matches!(plan(Command::Nodeid, around()), Ok(Plan::Nodeid)));
    assert!(matches!(
        plan(Command::Exec, around()),
        Ok(Plan::NotYet(m)) if m.contains("v0.3")
    ));
    assert!(matches!(
        plan(Command::Whoami { token: None }, around()),
        Err(CliError::NoToken)
    ));
    let mut s = around();
    s.token = text("tok");
    assert!(matches!(
        plan(Command::Whoami { token: None }, s),
        Ok(Plan::Ask { request: IpcRequest::WhoAmI { token }, .. }) if token == "tok"
    ));
    assert!(matches!(
        plan(Command::TokenImport { token: "not-base32!".to_string() }, around()),
        Err(CliError::TokenNotBase32(Base32Fault::Length(10)))
    ));
    assert!(matches!(
        plan(Command::TokenImport { token: " MZXW6YTBOI\n".to_string() }, around()),
        Ok(Plan::Import { raw }) if raw == b"foobar"
    ));
    assert!(matches!(
        plan(Command::Chat { peer: "bob".to_string(), channel: "ops".to_string() }, around()),
        Ok(Plan::Chat {
            follow: IpcRequest::RecvSubscribe { since_ms: Some(1_000_000), follow: true, .. }
        })
    ));
}

#[test]
fn spawns_need_a_group_and_a_token() {
    let spawn = |group: Option<String>, token: Option<String>, f: SpawnFlags| {
        plan(
            Command::Spawn {
                flags: f,
                group,
                token,
            },
            around(),
        )
    };
    assert!(matches!(spawn(None, text("t"), flags()), Err(CliError::NoGroup)));
    assert!(matches!(spawn(text("g"), None, flags()), Err(CliError::NoToken)));
    let mut f = flags();
    f.worktree = true;
    assert!(matches!(spawn(text("g"), text("t"), f), Err(CliError::BothModes)));
    let mut f = flags();
    f.idle_timeout = text("5x");
    assert!(matches!(
        spawn(text("g"), text("t"), f),
        Err(CliError::UnknownUnit(_))
    ));
    match spawn(text("g"), text("t"), flags()).unwrap() {
        Plan::Ask {
            request:
                IpcRequest::Spawn {
                    permission_mode,
                    fs_mode,
                    prompt,
                    trace,
                    ..
                },
            awaits: Await::Spawn,
            ..
        } => {
            assert_eq!(permission_mode, text("plan"));
            assert_eq!(fs_mode, FsMode::New);
            assert_eq!(prompt, "");
            assert!(trace);
        }
        other => panic!("unexpected plan {other:?}"),
    }
    let mut f = flags();
    f.permission_mode = text("acceptEdits");
    assert!(matches!(
        spawn(text("g"), text("t"), f),
        Ok(Plan::Ask { request: IpcRequest::Spawn { permission_mode: Some(m), .. }, .. })
            if m == "acceptEdits"
    ));
}
