use wt::clock::{reading_ms, reading_secs, unix_ms, unix_secs};
use wt::node::NodeId;
use wt::rows::{
    row_to_message, row_to_peer, row_to_token, AgentRow, Direction, MessageColumns, MetaRow,
    PeerSelectorBytes, SessionRow, TokenColumns, TokenRow,
};
use wt::store::{
    channel_id, pending_migrations, stored_version, target_schema_version, Store, StoreError,
    MAX_MSGS_PER_SESSION,
};
use wt::token::Cap;

fn open_temp() -> Store {
    Store::new()
}

fn node(byte: u8) -> NodeId {
    NodeId([byte; 32])
}

fn token(byte: u8) -> TokenRow {
    TokenRow {
        id: [byte; 16],
        iss: node(1),
        sub: node(2),
        exp: unix_secs() + 3600,
        caps: vec![Cap::Msg],
        raw: vec![byte, byte + 1],
        revoked: false,
    }
}

fn name(s: &str) -> PeerSelectorBytes {
    PeerSelectorBytes::Name(s.to_string())
}

#[test]
fn open_creates_state_db_and_schema_version() {
    let store = open_temp();
    let version = store.meta_get("schema_version").unwrap();
    assert_eq!(
        String::from_utf8(version).unwrap(),
        target_schema_version().to_string()
    );
}

#[test]
fn migration_upgrades_v1_db_to_current() {
    // An old install holds the first version and no messages.
    let (done, all) = pending_migrations(Some(b"1"));
    assert_eq!((done, all), (1, 3));
    let meta = vec![MetaRow {
        key: "schema_version".to_string(),
        value: b"1".to_vec(),
    }];
    let store = Store::load(
        meta,
        vec![],
        vec![],
        vec![],
        vec![],
        vec![],
        vec![],
        vec![],
        MAX_MSGS_PER_SESSION,
    );
    let version = store.meta_get("schema_version").unwrap();
    assert_eq!(
        String::from_utf8(version).unwrap(),
        target_schema_version().to_string()
    );
    assert!(store.inbox_backlog(None, None, None, 100).is_empty());
}

#[test]
fn a_saved_store_is_loaded_as_it_was() {
    let mut store = open_temp();
    store.peer_add(node(1), "alice", Some(vec![7])).unwrap();
    store.token_insert(&token(9));
    store.outbox_enqueue(node(2), node(1), "ops", b"hi".to_vec()).unwrap();
    store.group_create("myapp");
    store.agent_msg_enqueue("myapp", "a", "a", "prime", "user", b"yo".to_vec()).unwrap();
    let t = store.saved();
    let mut again = Store::load(
        t.meta.clone(),
        t.peers.clone(),
        t.tokens.clone(),
        t.messages.clone(),
        t.groups.clone(),
        t.agents.clone(),
        t.sessions.clone(),
        t.bus.clone(),
        MAX_MSGS_PER_SESSION,
    );
    assert_eq!(again.meta_get("schema_version").unwrap(), b"3".to_vec());
    assert_eq!(again.peer_get(&name("alice")).unwrap().addr_blob, Some(vec![7]));
    assert_eq!(again.token_list().len(), 1);
    assert_eq!(again.outbox_pending_peers(), vec![node(1)]);
    assert!(!again.group_create("myapp"));
    assert_eq!(again.agent_msg_backlog("myapp", "prime", None, None, 10, true).len(), 1);
    let row = again.outbox_enqueue(node(2), node(1), "ops", b"again".to_vec()).unwrap();
    assert_eq!(row.seq, 2);
    assert_eq!(again.saved().meta.len(), 1);
}

#[test]
fn migrations_start_at_the_stored_version() {
    assert_eq!(pending_migrations(None), (0, 3));
    assert_eq!(pending_migrations(Some(b"0")), (0, 3));
    assert_eq!(pending_migrations(Some(b"2")), (2, 3));
    assert_eq!(pending_migrations(Some(b"3")), (3, 3));
    assert_eq!(pending_migrations(Some(b"99")), (3, 3));
    assert_eq!(pending_migrations(Some(b"-1")), (0, 3));
    assert_eq!(stored_version(Some(b"+2")), 2);
    assert_eq!(stored_version(Some(b"two")), 0);
    assert_eq!(stored_version(Some(b"9223372036854775808")), 0);
    assert_eq!(stored_version(Some(b"-9223372036854775808")), i64::MIN);
}

#[test]
fn peer_add_update_preserves_ticket_when_update_has_none() {
    let mut store = open_temp();
    store.peer_add(node(9), "bob", Some(vec![1, 2, 3])).unwrap();
    store.peer_add(node(9), "robert", None).unwrap();

    assert!(store.peer_get(&name("bob")).is_none());
    let row = store.peer_get(&PeerSelectorBytes::NodeId(node(9))).unwrap();
    assert_eq!(row.name, "robert");
    assert_eq!(row.addr_blob, Some(vec![1, 2, 3]));
}

#[test]
fn peer_update_replaces_the_address_it_brings() {
    let mut store = open_temp();
    store.peer_add(node(9), "bob", Some(vec![1])).unwrap();
    store.peer_add(node(9), "bob", Some(vec![2])).unwrap();
    assert_eq!(
        store.peer_get(&name("bob")).unwrap().addr_blob,
        Some(vec![2])
    );
}

#[test]
fn peer_name_must_be_unique() {
    let mut store = open_temp();
    store.peer_add(node(1), "same", None).unwrap();
    assert!(store.peer_add(node(2), "same", None).is_err());
    assert_eq!(
        store.peer_add(node(2), "same", None),
        Err(StoreError::PeerNameTaken)
    );
    assert_eq!(store.peer_list().len(), 1);
}

#[test]
fn peer_remove_by_name_and_nodeid_reports_counts() {
    let mut store = open_temp();
    store.peer_add(node(1), "a", None).unwrap();
    store.peer_add(node(2), "b", None).unwrap();

    assert_eq!(store.peer_remove(&name("a")), 1);
    assert_eq!(store.peer_remove(&PeerSelectorBytes::NodeId(node(2))), 1);
    assert_eq!(store.peer_remove(&name("missing")), 0);
}

#[test]
fn peers_are_listed_by_name_and_seen_when_touched() {
    let mut store = open_temp();
    store.peer_add_at(node(1), "zoe", None, 10).unwrap();
    store.peer_add_at(node(2), "amy", None, 20).unwrap();
    store.peer_touch_seen_at(&node(1), 77);
    let listed = store.peer_list();
    assert_eq!(listed[0].name, "amy");
    assert_eq!(listed[0].last_seen_ms, None);
    assert_eq!(listed[1].name, "zoe");
    assert_eq!(listed[1].last_seen_ms, Some(77));
    assert_eq!(listed[1].added_at_ms, 10);
}

#[test]
fn token_insert_revoke_and_find_roundtrip() {
    let mut store = open_temp();
    let row = token(8);
    store.token_insert(&row);

    let found = store.token_find(&row.id).unwrap();
    assert_eq!(found.id, row.id);
    assert_eq!(found.iss, row.iss);
    assert_eq!(found.sub, row.sub);
    assert_eq!(found.caps, row.caps);
    assert!(!found.revoked);

    assert_eq!(store.token_revoke(&row.id), 1);
    assert!(store.token_find(&row.id).unwrap().revoked);
    assert_eq!(store.token_revoke(&[7; 16]), 0);
}

#[test]
fn token_insert_conflict_updates_revoked_state() {
    let mut store = open_temp();
    let mut row = token(8);
    store.token_insert(&row);
    row.revoked = true;
    row.raw = vec![99];
    store.token_insert(&row);

    let found = store.token_find(&row.id).unwrap();
    assert!(found.revoked);
    assert_eq!(found.raw, vec![99]);
}

#[test]
fn find_token_with_cap_picks_valid_newest_and_skips_bad() {
    let mut store = open_temp();
    let iss = node(1);
    let sub = node(2);
    let now = unix_secs();

    // expired
    let mut expired = token(10);
    expired.iss = iss;
    expired.sub = sub;
    expired.exp = now.saturating_sub(10);
    store.token_insert(&expired);
    // revoked
    let mut revoked = token(11);
    revoked.iss = iss;
    revoked.sub = sub;
    revoked.exp = now + 3600;
    revoked.revoked = true;
    store.token_insert(&revoked);
    // valid, far expiry
    let mut good = token(12);
    good.iss = iss;
    good.sub = sub;
    good.exp = now + 7200;
    store.token_insert(&good);
    // wrong cap (none), simulated by empty caps
    let mut nocap = token(13);
    nocap.iss = iss;
    nocap.sub = sub;
    nocap.exp = now + 9999;
    nocap.caps = vec![];
    store.token_insert(&nocap);

    let found = store
        .find_token_with_cap(iss, sub, Cap::Msg, now)
        .expect("should find the valid msg-cap token");
    // `good` (id 12) is the newest non-revoked, non-expired token that carries Msg.
    assert_eq!(found.id, [12u8; 16]);

    // No token for an unknown subject.
    assert!(store
        .find_token_with_cap(iss, node(99), Cap::Msg, now)
        .is_none());
}

#[test]
fn corrupt_nodeid_lengths_are_rejected_on_read() {
    assert!(row_to_peer(vec![1u8; 31], "bad".to_string(), 0, None, None).is_err());
    let e = row_to_peer(vec![1u8; 31], "bad".to_string(), 0, None, None).unwrap_err();
    assert_eq!(e.column, 0);
    assert_eq!(e.message, "nodeid must be 32 bytes, got 31");
    let p = row_to_peer(vec![1u8; 32], "good".to_string(), 5, Some(6), None).unwrap();
    assert_eq!(p.nodeid, node(1));
    assert_eq!(p.last_seen_ms, Some(6));
}

#[test]
fn corrupt_messages_and_tokens_are_rejected_on_read() {
    fn columns() -> MessageColumns {
        MessageColumns {
            sender: vec![1; 32],
            channel_id: vec![2; 16],
            seq: 3,
            direction: 1,
            channel: "ops".to_string(),
            peer_nodeid: vec![4; 32],
            payload: vec![5],
            enqueued_at_ms: 6,
            delivered_at_ms: None,
        }
    }
    let m = row_to_message(columns()).unwrap();
    assert_eq!(m.seq, 3);
    assert_eq!(m.direction, Direction::In);
    let mut c = columns();
    c.direction = 2;
    let e = row_to_message(c).unwrap_err();
    assert_eq!((e.column, e.message.as_str()), (3, "invalid direction"));
    let mut c = columns();
    c.channel_id = vec![];
    let e = row_to_message(c).unwrap_err();
    assert_eq!(e.message, "messages.id_channel must be 16 bytes, got 0");
    let mut c = columns();
    c.peer_nodeid = vec![0; 33];
    assert_eq!(row_to_message(c).unwrap_err().column, 5);
    let t = TokenColumns {
        id: vec![1; 16],
        iss: vec![2; 32],
        sub: vec![3; 30],
        exp: 4,
        caps: vec![Cap::Msg],
        raw: vec![],
        revoked: 0,
    };
    let e = row_to_token(t).unwrap_err();
    assert_eq!((e.column, e.message.as_str()), (2, "sub must be 32 bytes, got 30"));
    assert_eq!(Direction::from_i64(0), Some(Direction::Out));
    assert_eq!(Direction::from_i64(1), Some(Direction::In));
    assert_eq!(Direction::from_i64(7), None);
    assert_eq!(Direction::In.to_i64(), 1);
}

#[test]
fn channel_id_is_stable_and_distinguishes_names() {
    assert_eq!(channel_id("default"), channel_id("default"));
    assert_ne!(channel_id("default"), channel_id("Default"));
    assert_ne!(channel_id("alpha"), channel_id("beta"));
    let _ = channel_id("");
    // The first half of the BLAKE3 digest of the empty string.
    assert_eq!(
        channel_id(""),
        [
            0xaf, 0x13, 0x49, 0xb9, 0xf5, 0xf9, 0xa1, 0xa6, 0xa0, 0x40, 0x4d, 0xea, 0x36, 0xdc,
            0xc9, 0x49
        ]
    );
}

#[test]
fn outbox_enqueue_assigns_monotonic_seq_per_channel() {
    let mut store = open_temp();
    let me = node(1);
    let bob = node(2);

    let r1 = store
        .outbox_enqueue(me, bob, "default", b"hi 1".to_vec())
        .unwrap();
    let r2 = store
        .outbox_enqueue(me, bob, "default", b"hi 2".to_vec())
        .unwrap();
    let r_other = store
        .outbox_enqueue(me, bob, "other", b"alt".to_vec())
        .unwrap();
    let r3 = store
        .outbox_enqueue(me, bob, "default", b"hi 3".to_vec())
        .unwrap();

    assert_eq!(r1.seq, 1);
    assert_eq!(r2.seq, 2);
    assert_eq!(r3.seq, 3);
    assert_eq!(r_other.seq, 1);
    assert!(matches!(r1.direction, Direction::Out));
    assert!(r1.delivered_at_ms.is_none());
}

#[test]
fn outbox_pending_for_peer_and_distinct_peers() {
    let mut store = open_temp();
    let me = node(1);
    let bob = node(2);
    let carol = node(3);

    store.outbox_enqueue(me, bob, "x", b"1".to_vec()).unwrap();
    store.outbox_enqueue(me, carol, "x", b"2".to_vec()).unwrap();
    store.outbox_enqueue(me, bob, "x", b"3".to_vec()).unwrap();

    let bob_pending = store.outbox_pending_for_peer(&bob, 10);
    assert_eq!(bob_pending.len(), 2);
    assert!(bob_pending.iter().all(|r| r.peer_nodeid == bob));

    let carol_pending = store.outbox_pending_for_peer(&carol, 10);
    assert_eq!(carol_pending.len(), 1);

    let mut peers = store.outbox_pending_peers();
    peers.sort_by_key(|n| n.0);
    assert_eq!(peers, vec![bob, carol]);

    // After delivering bob's messages, only carol remains pending.
    for r in &bob_pending {
        store.outbox_mark_delivered(&r.sender, &r.channel_id, r.seq);
    }
    let peers = store.outbox_pending_peers();
    assert_eq!(peers, vec![carol]);
}

#[test]
fn pending_messages_come_oldest_first_up_to_a_limit() {
    let mut store = open_temp();
    let (me, bob) = (node(1), node(2));
    store.outbox_enqueue_at(me, bob, "x", vec![1], 300).unwrap();
    store.outbox_enqueue_at(me, bob, "y", vec![2], 100).unwrap();
    store.outbox_enqueue_at(me, bob, "x", vec![3], 300).unwrap();
    let order: Vec<u8> = store
        .outbox_pending_for_peer(&bob, 10)
        .iter()
        .map(|m| m.payload[0])
        .collect();
    assert_eq!(order, vec![2, 1, 3]);
    assert_eq!(store.outbox_pending_for_peer(&bob, 2).len(), 2);
}

#[test]
fn inbox_record_dedups_duplicate_seq() {
    let mut store = open_temp();
    let alice = node(3);

    assert!(store.inbox_record(alice, "default", 1, b"hi", 1000));
    assert!(!store.inbox_record(alice, "default", 1, b"hi", 1000));
    assert!(store.inbox_record(alice, "default", 2, b"hi 2", 2000));
}

#[test]
fn inbox_backlog_filters_by_peer_channel_and_since() {
    let mut store = open_temp();
    let alice = node(3);
    let carol = node(4);

    store.inbox_record(alice, "chat", 1, b"a1", 100);
    store.inbox_record(alice, "chat", 2, b"a2", 200);
    store.inbox_record(alice, "ops", 1, b"a3", 300);
    store.inbox_record(carol, "chat", 1, b"c1", 400);

    let all = store.inbox_backlog(None, None, None, 100);
    assert_eq!(all.len(), 4);

    let only_alice = store.inbox_backlog(Some(alice), None, None, 100);
    assert_eq!(only_alice.len(), 3);
    assert!(only_alice.iter().all(|r| r.peer_nodeid == alice));

    let alice_chat = store.inbox_backlog(Some(alice), Some("chat"), None, 100);
    assert_eq!(alice_chat.len(), 2);
    assert!(alice_chat.iter().all(|r| r.channel == "chat"));

    let chat_only = store.inbox_backlog(None, Some("chat"), None, 100);
    assert_eq!(chat_only.len(), 3);

    let recent = store.inbox_backlog(None, None, Some(150), 100);
    assert_eq!(recent.len(), 3);
    assert!(recent.iter().all(|r| r.enqueued_at_ms > 150));

    let limited = store.inbox_backlog(None, None, None, 2);
    assert_eq!(limited.len(), 2);
    assert!(limited[0].enqueued_at_ms <= limited[1].enqueued_at_ms);
}

fn agent_row(group: &str, name: &str, hash: &[u8], role: &str) -> AgentRow {
    AgentRow {
        group_name: group.to_string(),
        name: name.to_string(),
        token_hash: hash.to_vec(),
        role: role.to_string(),
        dir: None,
        pid: None,
        status: "running".to_string(),
        created_at_ms: unix_ms(),
        last_seen_ms: None,
    }
}

fn session_row(group: &str, name: &str) -> SessionRow {
    SessionRow {
        group_name: group.to_string(),
        name: name.to_string(),
        prime_agent: "prime".to_string(),
        child_agent: name.to_string(),
        fs_mode: "worktree".to_string(),
        base_dir: Some("/proj".to_string()),
        workspace_path: format!("/tmp/wt/{group}/{name}"),
        branch: Some(format!("wt/{group}/{name}")),
        status: "active".to_string(),
        created_at_ms: unix_ms(),
    }
}

#[test]
fn group_create_is_idempotent_by_name() {
    let mut store = open_temp();
    assert!(store.group_create("myapp"));
    assert!(!store.group_create("myapp"));
    assert!(store.group_exists("myapp"));
    assert!(!store.group_exists("other"));
    let groups = store.group_list();
    assert_eq!(groups.len(), 1);
    assert_eq!(groups[0].name, "myapp");
}

#[test]
fn agent_register_unique_per_group_and_lookup_by_token() {
    let mut store = open_temp();
    store.group_create("g");
    assert!(store.agent_register(&agent_row("g", "prime", b"hash-prime", "prime")));
    // The same group and name again is not created (a name is unique within a group).
    assert!(!store.agent_register(&agent_row("g", "prime", b"hash-prime-2", "prime")));

    store.agent_register(&agent_row("g", "frontend", b"hash-fe", "child"));

    let found = store.agent_by_token(b"hash-fe").unwrap();
    assert_eq!(found.name, "frontend");
    assert_eq!(found.role, "child");
    assert!(store.agent_by_token(b"nope").is_none());

    assert_eq!(store.agent_list(Some("g")).len(), 2);

    store.agent_set_status("g", "frontend", "awaiting_input", Some(4242));
    let fe = store.agent_get("g", "frontend").unwrap();
    assert_eq!(fe.status, "awaiting_input");
    assert_eq!(fe.pid, Some(4242));
}

#[test]
fn a_status_without_a_process_keeps_the_process() {
    let mut store = open_temp();
    store.agent_register(&agent_row("g", "fe", b"h", "child"));
    store.agent_set_status_at("g", "fe", "running", Some(7), 100);
    store.agent_set_status_at("g", "fe", "exited", None, 200);
    let fe = store.agent_get("g", "fe").unwrap();
    assert_eq!((fe.status.as_str(), fe.pid), ("exited", Some(7)));
    assert_eq!(fe.last_seen_ms, Some(200));
    store.agent_touch_at("g", "fe", 300);
    assert_eq!(store.agent_get("g", "fe").unwrap().last_seen_ms, Some(300));
}

#[test]
fn session_create_list_and_close() {
    let mut store = open_temp();
    store.group_create("g");
    assert!(store.session_create(&session_row("g", "frontend")));
    assert!(!store.session_create(&session_row("g", "frontend")));
    store.session_create(&session_row("g", "backend"));

    let list = store.session_list("g");
    assert_eq!(list.len(), 2);
    assert_eq!(list[0].name, "frontend");

    assert_eq!(store.session_close("g", "frontend"), 1);
    let fe = store.session_get("g", "frontend").unwrap();
    assert_eq!(fe.status, "closed");
}

#[test]
fn agent_msg_seq_is_monotonic_per_session() {
    let mut store = open_temp();
    let a = store
        .agent_msg_enqueue(
            "g",
            "frontend",
            "frontend",
            "prime",
            "turn_output",
            b"a".to_vec(),
        )
        .unwrap();
    let b = store
        .agent_msg_enqueue(
            "g",
            "frontend",
            "frontend",
            "prime",
            "turn_output",
            b"b".to_vec(),
        )
        .unwrap();
    let c = store
        .agent_msg_enqueue(
            "g",
            "backend",
            "backend",
            "prime",
            "turn_output",
            b"c".to_vec(),
        )
        .unwrap();
    assert_eq!((a.seq, b.seq, c.seq), (1, 2, 1));
}

#[test]
fn agent_msg_backlog_filters_by_recipient_session_and_since() {
    let mut store = open_temp();
    store
        .agent_msg_enqueue(
            "g",
            "frontend",
            "prime",
            "frontend",
            "turn_input",
            b"do x".to_vec(),
        )
        .unwrap();
    store
        .agent_msg_enqueue(
            "g",
            "frontend",
            "frontend",
            "prime",
            "turn_output",
            b"done x".to_vec(),
        )
        .unwrap();
    store
        .agent_msg_enqueue(
            "g",
            "backend",
            "backend",
            "prime",
            "turn_output",
            b"done y".to_vec(),
        )
        .unwrap();

    // Everything addressed to the prime in group g (across sessions).
    let to_prime = store.agent_msg_backlog("g", "prime", None, None, 100, false);
    assert_eq!(to_prime.len(), 2);
    assert!(to_prime.iter().all(|m| m.to_agent == "prime"));

    // Scoped to the frontend session only.
    let fe = store.agent_msg_backlog("g", "prime", Some("frontend"), None, 100, false);
    assert_eq!(fe.len(), 1);
    assert_eq!(fe[0].payload, b"done x");

    // Addressed to the frontend child (the prime's reply).
    let to_fe = store.agent_msg_backlog("g", "frontend", None, None, 100, false);
    assert_eq!(to_fe.len(), 1);
    assert_eq!(to_fe[0].kind, "turn_input");

    // `since` in the future excludes everything.
    let recent = store.agent_msg_backlog("g", "prime", None, Some(unix_ms() + 10_000), 100, false);
    assert!(recent.is_empty());
}

#[test]
fn agent_msg_pending_filters_kind_and_consumed() {
    let mut store = open_temp();
    store
        .agent_msg_enqueue(
            "g",
            "frontend",
            "prime",
            "frontend",
            "turn_input",
            b"t1".to_vec(),
        )
        .unwrap();
    let r2 = store
        .agent_msg_enqueue(
            "g",
            "frontend",
            "prime",
            "frontend",
            "turn_input",
            b"t2".to_vec(),
        )
        .unwrap();
    // A non-turn_input to the same child is excluded.
    store
        .agent_msg_enqueue(
            "g",
            "frontend",
            "prime",
            "frontend",
            "user",
            b"note".to_vec(),
        )
        .unwrap();

    let pending = store.agent_msg_pending("g", "frontend", "turn_input");
    assert_eq!(pending.len(), 2);
    assert_eq!(pending[0].payload, b"t1");
    assert_eq!(pending[1].payload, b"t2");

    // Consuming the first leaves only the second, in order.
    store.agent_msg_mark_consumed("g", "frontend", pending[0].seq);
    let pending2 = store.agent_msg_pending("g", "frontend", "turn_input");
    assert_eq!(pending2.len(), 1);
    assert_eq!(pending2[0].seq, r2.seq);
}

#[test]
fn agent_msg_backlog_unconsumed_only_filters_consumed() {
    let mut store = open_temp();
    let a = store
        .agent_msg_enqueue("g", "s", "child", "prime", "turn_output", b"one".to_vec())
        .unwrap();
    store
        .agent_msg_enqueue("g", "s", "child", "prime", "turn_output", b"two".to_vec())
        .unwrap();
    store.agent_msg_mark_consumed("g", "s", a.seq);

    let unconsumed = store.agent_msg_backlog("g", "prime", None, None, 100, true);
    assert_eq!(unconsumed.len(), 1);
    assert_eq!(unconsumed[0].payload, b"two");

    let all = store.agent_msg_backlog("g", "prime", None, None, 100, false);
    assert_eq!(all.len(), 2);
}

#[test]
fn reconcile_stale_agents_exits_live_and_closes_sessions() {
    let mut store = open_temp();
    store.group_create("g");
    store.agent_register(&agent_row("g", "running1", b"h1", "child"));
    let mut done = agent_row("g", "done1", b"h2", "child");
    done.status = "exited".to_string();
    store.agent_register(&done);
    store.session_create(&session_row("g", "running1"));

    let n = store.reconcile_stale_agents();
    assert_eq!(n, 1); // only running1 was live

    assert_eq!(store.agent_get("g", "running1").unwrap().status, "exited");
    assert_eq!(store.agent_get("g", "done1").unwrap().status, "exited");
    assert_eq!(store.session_get("g", "running1").unwrap().status, "closed");
    assert_eq!(store.reconcile_stale_agents(), 0);
}

#[test]
fn agent_msg_enqueue_trims_to_retention_cap() {
    let cap: u64 = 8;
    let mut store = Store::with_retention(cap);
    // The cap is 8; enqueue 12 to one group and session.
    for i in 0..12 {
        store
            .agent_msg_enqueue(
                "g",
                "s",
                "child",
                "x",
                "turn_output",
                format!("m{i}").into_bytes(),
            )
            .unwrap();
    }
    let rows = store.agent_msg_backlog("g", "x", Some("s"), None, 1000, false);
    assert_eq!(rows.len(), cap as usize); // 8
    assert_eq!(rows.first().unwrap().seq, 5); // 12 - 8 + 1
    assert_eq!(rows.last().unwrap().seq, 12);
    assert_eq!(MAX_MSGS_PER_SESSION, 5000);
}

#[test]
fn retention_is_counted_per_session() {
    let mut store = Store::with_retention(2);
    for s in ["a", "b"] {
        for i in 0..3u8 {
            store
                .agent_msg_enqueue_at("g", s, "c", "x", "user", vec![i], 10)
                .unwrap();
        }
    }
    assert_eq!(store.agent_msg_session_log("g", "a", 0).len(), 2);
    assert_eq!(store.agent_msg_session_log("g", "b", 0).len(), 2);
    assert_eq!(store.agent_msg_session_log("g", "b", 2)[0].seq, 3);
}

#[test]
fn group_feed_interleaves_sessions_by_time() {
    let mut store = open_temp();
    store
        .agent_msg_enqueue_at("g", "b", "b", "prime", "user", vec![1], 20)
        .unwrap();
    store
        .agent_msg_enqueue_at("g", "a", "a", "prime", "user", vec![2], 20)
        .unwrap();
    store
        .agent_msg_enqueue_at("g", "b", "b", "prime", "user", vec![3], 10)
        .unwrap();
    store
        .agent_msg_enqueue_at("h", "a", "a", "prime", "user", vec![4], 15)
        .unwrap();
    let order: Vec<u8> = store
        .agent_msg_group_feed("g", 0)
        .iter()
        .map(|m| m.payload[0])
        .collect();
    assert_eq!(order, vec![3, 2, 1]);
    assert_eq!(store.agent_msg_group_feed("g", 10).len(), 2);
}

#[test]
fn seconds_are_milliseconds_rounded_down() {
    for t in [(0, 0), (1, 999_999_999), (1_700_000_000, 123_456_789)] {
        assert_eq!(reading_secs(Some(t)), reading_ms(Some(t)) / 1000);
    }
    assert_eq!(reading_ms(Some((1, 999_999_999))), 1999);
    assert_eq!((reading_secs(None), reading_ms(None)), (0, 0));
}
