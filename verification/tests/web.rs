use wt::bus::{kind_from_str, kind_to_str, BusEvent};
use wt::ipc::AgentMsgKind;
use wt::rows::{AgentRow, SessionRow};
use wt::store::Store;
use wt::text::{parse_u64, trim, u64_text};
use wt::web::{list_messages, list_sessions, live_card, origin_allowed, send_message, SendError};

fn store() -> Store {
    let mut s = Store::new();
    s.group_create_at("g", 1);
    s.agent_register(&AgentRow {
        group_name: "g".to_string(),
        name: "fe".to_string(),
        token_hash: vec![1],
        role: "child".to_string(),
        dir: None,
        pid: Some(9),
        status: "running".to_string(),
        created_at_ms: 2,
        last_seen_ms: Some(3),
    });
    s.session_create(&SessionRow {
        group_name: "g".to_string(),
        name: "fe".to_string(),
        prime_agent: "prime".to_string(),
        child_agent: "fe".to_string(),
        fs_mode: "new".to_string(),
        base_dir: None,
        workspace_path: "/ws".to_string(),
        branch: None,
        status: "active".to_string(),
        created_at_ms: 2,
    });
    s
}

#[test]
fn only_pages_of_this_machine_are_served() {
    assert!(origin_allowed(None));
    assert!(origin_allowed(Some("http://localhost")));
    assert!(origin_allowed(Some("http://localhost:5173")));
    assert!(origin_allowed(Some("http://127.0.0.1:8787")));
    assert!(!origin_allowed(Some("http://localhost.evil.example")));
    assert!(!origin_allowed(Some("http://127.0.0.1.evil.example")));
    assert!(!origin_allowed(Some("https://evil.example")));
    assert!(!origin_allowed(Some("")));
}

#[test]
fn the_dashboard_acts_as_the_prime() {
    let mut s = store();
    let e = send_message(&mut s, "g", "fe", None, "go on", 50).unwrap();
    assert_eq!(e.from_agent, "prime");
    assert_eq!(e.to_agent, "fe");
    assert_eq!(e.kind, AgentMsgKind::TurnInput);
    assert_eq!(e.seq, 1);
    let e = send_message(&mut s, "g", "fe", Some("user"), "gr\u{fc}n", 60).unwrap();
    assert_eq!(e.kind, AgentMsgKind::User);
    assert!(matches!(
        send_message(&mut s, "g", "nobody", None, "x", 70),
        Err(SendError::NoSuchSession)
    ));
    let log = list_messages(&s, "g", "fe", 0);
    assert_eq!(log.len(), 2);
    assert_eq!((log[0].text.as_str(), log[0].kind.as_str()), ("go on", "turn_input"));
    assert_eq!(log[1].text, "gr\u{fc}n");
    assert_eq!(list_messages(&s, "g", "fe", 1).len(), 1);
    let card = live_card(&e, "g").unwrap();
    assert_eq!((card.session.as_str(), card.kind.as_str(), card.ts_ms), ("fe", "user", 60));
    assert!(live_card(&e, "other").is_none());
}

#[test]
fn session_cards_join_the_child() {
    let s = store();
    let cards = list_sessions(&s, "g");
    assert_eq!(cards.len(), 1);
    assert_eq!(cards[0].agent_status.as_deref(), Some("running"));
    assert_eq!(cards[0].agent_role.as_deref(), Some("child"));
    assert_eq!((cards[0].pid, cards[0].last_seen_ms), (Some(9), Some(3)));
    assert_eq!(cards[0].session_status, "active");
    assert!(list_sessions(&s, "other").is_empty());
}

#[test]
fn live_events_carry_text() {
    let e = BusEvent {
        group: "g".to_string(),
        session: "fe".to_string(),
        from_agent: "fe".to_string(),
        to_agent: "prime".to_string(),
        kind: AgentMsgKind::Trace,
        payload: b"\xffx".to_vec(),
        ts_ms: 1,
        seq: 2,
    };
    let c = live_card(&e, "g").unwrap();
    assert_eq!((c.text.as_str(), c.kind.as_str()), ("\u{fffd}x", "trace"));
}

#[test]
fn kinds_have_names() {
    for k in [
        AgentMsgKind::TurnOutput,
        AgentMsgKind::TurnInput,
        AgentMsgKind::User,
        AgentMsgKind::Control,
        AgentMsgKind::Trace,
    ] {
        assert_eq!(kind_from_str(kind_to_str(k)), k);
    }
    assert_eq!(kind_from_str("whatever"), AgentMsgKind::User);
}

#[test]
fn numbers_and_white_space_are_those_of_the_standard_library() {
    for s in ["0", "+5", "", "+", "-1", "18446744073709551615", "18446744073709551616", "1 "] {
        assert_eq!(parse_u64(s), s.parse::<u64>().ok());
    }
    for n in [0, 9, 10, 12_345, u64::MAX] {
        assert_eq!(u64_text(n), n.to_string());
    }
    for s in ["", "  a b \n", "\u{3000}x\u{85}", "\u{200b}y"] {
        assert_eq!(trim(s), s.trim());
    }
}
