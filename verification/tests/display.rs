use wt::display::{
    agent_line, chat_step, conn_line, group_line, heading, peer_line, session_line, step,
    token_line, Await, Listing, Then,
};
use wt::ipc::{
    AgentInfo, AgentMsgKind, ConnInfo, FsMode, GroupInfo, IpcError, IpcErrorCode, IpcEvent,
    PeerInfo, PeerSource, PeerState, SessionInfo, TokenInfo, WhoAmIInfo,
};
use wt::node::NodeId;
use wt::token::Cap;

fn peer() -> PeerInfo {
    PeerInfo {
        nodeid: NodeId([1; 32]),
        name: "bob".to_string(),
        source: PeerSource::Manual,
        state: PeerState::Connected { open_streams: 2 },
        last_seen_ms: Some(0),
    }
}

fn token_info() -> TokenInfo {
    TokenInfo {
        id: [2; 16],
        iss: NodeId([1; 32]),
        sub: NodeId([3; 32]),
        exp: 99,
        caps: vec![Cap::Msg, Cap::Msg],
        revoked: false,
    }
}

#[test]
fn headings_stand_above_their_columns() {
    assert_eq!(
        heading(Listing::Groups),
        format!("{:<20} {:<10} CREATED", "GROUP", "SESSIONS")
    );
    assert_eq!(
        heading(Listing::Peers),
        format!(
            "{:<12} {:<66} {:<8} {:<12} LAST SEEN",
            "NAME", "NODEID", "SOURCE", "STATE"
        )
    );
    assert_eq!(
        heading(Listing::Tokens),
        format!("{:<34} {:<66} {:<66} {:<12} CAPS", "ID", "ISS", "SUB", "EXP")
    );
    assert_eq!(
        heading(Listing::Agents),
        format!(
            "{:<14} {:<12} {:<8} {:<14} PID/DIR",
            "AGENT", "GROUP", "ROLE", "STATUS"
        )
    );
}

#[test]
fn rows_fill_their_columns() {
    assert_eq!(
        peer_line(&peer(), 61_000),
        format!(
            "{:<12} {:<66} {:<8} {:<12} {}",
            "bob",
            "01".repeat(32),
            "manual",
            "connected(2)",
            "1m ago"
        )
    );
    let mut p = peer();
    p.name = "a-name-longer-than-its-column".to_string();
    p.state = PeerState::Offline;
    p.last_seen_ms = None;
    assert_eq!(
        peer_line(&p, 0),
        format!(
            "{:<12} {:<66} {:<8} {:<12} {}",
            "a-name-longer-than-its-column",
            "01".repeat(32),
            "manual",
            "offline",
            "—"
        )
    );
    let c = ConnInfo {
        peer_name: "bob".to_string(),
        nodeid: NodeId([1; 32]),
        since_ms: 0,
        streams: vec!["msg:a".to_string(), "msg:b".to_string()],
        rx_bytes: 0,
        tx_bytes: 0,
        rtt_us: None,
        via_relay: true,
    };
    assert_eq!(
        conn_line(&c, 0),
        format!(
            "{:<12} {:<66} {:<10} {:<24} {}",
            "bob",
            "01".repeat(32),
            "now",
            "msg:a,msg:b",
            "relay"
        )
    );
    assert_eq!(
        token_line(&token_info()),
        format!(
            "{:<34} {:<66} {:<66} {:<12} {}",
            "02".repeat(16),
            "01".repeat(32),
            "03".repeat(32),
            "99",
            "msg,msg"
        )
    );
    let mut t = token_info();
    t.revoked = true;
    assert!(token_line(&t).contains(" REVOKED "));
    let g = GroupInfo {
        name: "g".to_string(),
        created_at_ms: 0,
        session_count: 3,
    };
    assert_eq!(group_line(&g, 1000), format!("{:<20} {:<10} 1s ago", "g", 3));
    let mut s = SessionInfo {
        group: "g".to_string(),
        name: "fe".to_string(),
        child_agent: "fe".to_string(),
        fs_mode: FsMode::New,
        workspace_path: "/ws".to_string(),
        branch: None,
        status: "active".to_string(),
        child_status: Some("running".to_string()),
    };
    assert_eq!(
        session_line(&s),
        format!("{:<14} {:<14} {:<10} {:<14} /ws", "fe", "fe", "new", "running")
    );
    s.child_status = None;
    assert!(session_line(&s).contains(" active "));
    let mut a = AgentInfo {
        group: "g".to_string(),
        name: "fe".to_string(),
        role: "child".to_string(),
        status: "running".to_string(),
        dir: Some("/app".to_string()),
        pid: Some(-7),
    };
    assert!(agent_line(&a).ends_with(" pid -7"));
    a.pid = None;
    assert!(agent_line(&a).ends_with(" /app"));
    a.dir = None;
    assert_eq!(
        agent_line(&a),
        format!("{:<14} {:<12} {:<8} {:<14} ", "fe", "g", "child", "running")
    );
}

#[test]
fn messages_are_lines_of_json() {
    let message = |payload: &[u8]| IpcEvent::RecvMsg {
        from: NodeId([1; 32]),
        from_name: Some("al\"ice".to_string()),
        channel: "ops".to_string(),
        payload: payload.to_vec(),
        ts_ms: 7,
    };
    let s = step(
        Await::Messages { follow: false },
        &message(b"{ \"user\" : \"hi\", \"n\": [1, 2.5] }"),
        0,
    );
    assert_eq!(
        s.out,
        vec!["{\"channel\":\"ops\",\"from\":\"al\\\"ice\",\"payload\":{\"n\":[1,2.5],\"user\":\"hi\"},\"ts_ms\":7}"]
    );
    assert!(matches!(s.next, Then::More));
    let s = step(
        Await::Messages { follow: false },
        &message(b"two\nlines \xff"),
        0,
    );
    assert_eq!(
        s.out,
        vec!["{\"channel\":\"ops\",\"from\":\"al\\\"ice\",\"payload\":\"two\\nlines \u{fffd}\",\"ts_ms\":7}"]
    );
    let bus = IpcEvent::AgentMsg {
        session: "fe".to_string(),
        from_agent: "fe".to_string(),
        kind: AgentMsgKind::TurnOutput,
        payload: b"done".to_vec(),
        ts_ms: 8,
    };
    let s = step(Await::BusMessages { follow: true }, &bus, 0);
    assert_eq!(
        s.out,
        vec!["{\"from\":\"fe\",\"kind\":\"turn_output\",\"payload\":\"done\",\"session\":\"fe\",\"ts_ms\":8}"]
    );
}

#[test]
fn readers_stop_at_the_end_of_the_backlog_unless_they_follow() {
    let end = IpcEvent::RecvBacklogEnd;
    assert!(matches!(
        step(Await::Messages { follow: false }, &end, 0).next,
        Then::Finish
    ));
    assert!(matches!(
        step(Await::Messages { follow: true }, &end, 0).next,
        Then::More
    ));
    let end = IpcEvent::AgentBacklogEnd;
    assert!(matches!(
        step(Await::BusMessages { follow: false }, &end, 0).next,
        Then::Finish
    ));
    assert!(matches!(
        step(Await::BusMessages { follow: false }, &IpcEvent::Done, 0).next,
        Then::Unexpected
    ));
}

#[test]
fn failures_end_every_wait() {
    let failed = IpcEvent::Failed(IpcError::new(IpcErrorCode::NotFound, "no such peer"));
    for a in [
        Await::Ack,
        Await::Listing(Listing::Peers),
        Await::Import,
        Await::Messages { follow: true },
    ] {
        let s = step(a, &failed, 0);
        assert!(s.out.is_empty() && s.err.is_empty());
        match s.next {
            Then::Fail(e) => {
                assert_eq!(e.code, IpcErrorCode::NotFound);
                assert_eq!(e.message, "no such peer");
            }
            other => panic!("expected a failure, got {other:?}"),
        }
    }
}

#[test]
fn answers_are_printed_where_scripts_expect_them() {
    let s = step(
        Await::Group,
        &IpcEvent::GroupCreated {
            group: "myapp".to_string(),
            token: "TOK".to_string(),
        },
        0,
    );
    assert_eq!(s.out, vec!["TOK"]);
    assert_eq!(
        s.err,
        vec![
            "created group 'myapp'; you are its prime agent. To act as it, export:",
            "  export WT_GROUP=myapp WT_TOKEN=TOK"
        ]
    );
    let s = step(
        Await::Token,
        &IpcEvent::TokenIssued {
            raw: vec![1, 2],
            info: token_info(),
        },
        0,
    );
    assert!(s.out.is_empty());
    assert_eq!(
        s.err,
        vec![format!(
            "issued token id={}  iss={}  sub={}  exp=99  caps=[Msg, Msg]",
            "02".repeat(16),
            "01".repeat(32),
            "03".repeat(32)
        )]
    );
    assert!(matches!(s.next, Then::Token(raw) if raw == vec![1, 2]));
    let s = step(Await::Import, &IpcEvent::TokenListItem(token_info()), 0);
    assert_eq!(
        s.err,
        vec![format!(
            "imported token id={} from {} caps=[Msg, Msg] exp=99",
            "02".repeat(16),
            "01".repeat(32)
        )]
    );
    assert!(matches!(s.next, Then::Ack));
    let s = step(
        Await::Spawn,
        &IpcEvent::Spawned {
            group: "g".to_string(),
            session: "fe".to_string(),
            token: "TOK".to_string(),
            workspace: "/ws".to_string(),
        },
        0,
    );
    assert_eq!(
        s.out,
        vec!["{\"group\":\"g\",\"session\":\"fe\",\"token\":\"TOK\",\"workspace\":\"/ws\"}"]
    );
    assert_eq!(s.err.len(), 3);
    let s = step(
        Await::WhoAmI,
        &IpcEvent::WhoAmIInfo(WhoAmIInfo {
            group: "g".to_string(),
            agent: "prime".to_string(),
            role: "prime".to_string(),
            session: None,
        }),
        0,
    );
    assert_eq!(
        s.out,
        vec![
            "group:   g",
            "agent:   prime",
            "role:    prime",
            "session: —"
        ]
    );
    let s = step(
        Await::Status,
        &IpcEvent::StatusInfo {
            nodeid: NodeId([1; 32]),
            version: "0.5.0".to_string(),
            endpoint_bound: true,
        },
        0,
    );
    assert_eq!(s.out[1], "version: 0.5.0");
    assert_eq!(s.out[2], "endpoint_bound: true");
    let s = step(Await::Listing(Listing::Peers), &IpcEvent::PeerListItem(peer()), 0);
    assert_eq!(s.out, vec![peer_line(&peer(), 0)]);
    assert!(matches!(
        step(Await::Listing(Listing::Peers), &IpcEvent::PeerListEnd, 0).next,
        Then::Finish
    ));
    assert!(matches!(
        step(Await::Listing(Listing::Peers), &IpcEvent::ConnListEnd, 0).next,
        Then::Unexpected
    ));
    assert!(matches!(step(Await::Ack, &IpcEvent::Done, 0).next, Then::Finish));
    assert_eq!(
        step(Await::NodeId, &IpcEvent::NodeIdValue(NodeId([1; 32])), 0).out,
        vec!["01".repeat(32)]
    );
    assert_eq!(
        step(Await::Ticket, &IpcEvent::TicketValue("wt1:AA".to_string()), 0).out,
        vec!["wt1:AA"]
    );
}

#[test]
fn a_chat_passes_over_the_end_of_the_backlog() {
    let s = chat_step(&IpcEvent::RecvMsg {
        from: NodeId([1; 32]),
        from_name: None,
        channel: "default".to_string(),
        payload: b"hi".to_vec(),
        ts_ms: 1,
    });
    assert_eq!(s.out, vec![format!("[{}] hi", "01".repeat(32))]);
    assert!(matches!(chat_step(&IpcEvent::RecvBacklogEnd).next, Then::More));
    assert!(matches!(chat_step(&IpcEvent::Done).next, Then::Finish));
}
