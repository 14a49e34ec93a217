use wt::auth::{new_claims, sign_token, token_row, AuthError};
use wt::conns::Conns;
use wt::crypto::Identity;
use wt::ipc::{IpcErrorCode, IpcEvent};
use wt::lan::{host_name, instance_name, properties, LanPeers, SERVICE_TYPE};
use wt::node::NodeId;
use wt::peering::{
    admit_stream, passes, prepare_dial, rejection, shown, take_message, Delivery, DeliveryStep,
    Senders, DELIVERY_BATCH,
};
use wt::store::Store;
use wt::token::Cap;
use wt::wire::MessageFrame;

fn frame(seq: u64, payload: &[u8]) -> MessageFrame {
    MessageFrame {
        seq,
        ts_ms: seq * 10,
        payload: payload.to_vec(),
    }
}

/// Delivers everything that is pending, over a wire that never fails.
fn deliver(d: &mut Delivery, store: &mut Store) -> Vec<(String, u64, Vec<u8>)> {
    let mut out = Vec::new();
    loop {
        match d.next(store) {
            DeliveryStep::Wait => return out,
            DeliveryStep::Open(channel) => d.opened(&channel),
            DeliveryStep::Write { channel, frame } => {
                out.push((channel, frame.seq, frame.payload));
                d.written(store, 1);
            }
        }
    }
}

#[test]
fn two_daemons_exchange_reciprocal_messages() {
    let (a, b) = (Identity::generate(), Identity::generate());
    let (mut sa, mut sb) = (Store::new(), Store::new());
    sa.peer_add(b.nodeid(), "bob", None).unwrap();
    sb.peer_add(a.nodeid(), "alice", None).unwrap();
    // Bob grants, Alice imports and presents.
    let claims = new_claims(b.secret_key(), a.nodeid(), vec![Cap::Msg], Some(3600));
    let signed = sign_token(b.secret_key(), b"claims".to_vec());
    sa.token_insert(&token_row(&claims, b"raw".to_vec()));
    let now = wt::clock::unix_secs();
    let dial = prepare_dial(&sa, b.nodeid(), a.nodeid(), now).unwrap();
    assert_eq!(dial.name, "bob");
    assert_eq!(dial.token, b"raw");
    assert!(dial.addr_blob.is_none());
    let from = admit_stream(
        &mut sb,
        &signed,
        Some(claims.copied()),
        b.nodeid(),
        a.nodeid(),
        now,
        777,
    )
    .unwrap();
    assert_eq!(from.as_deref(), Some("alice"));
    assert_eq!(sb.peer_list()[0].last_seen_ms, Some(777));

    sa.outbox_enqueue(a.nodeid(), b.nodeid(), "default", b"hello from alice".to_vec())
        .unwrap();
    let mut delivery = Delivery::new(b.nodeid());
    let sent = deliver(&mut delivery, &mut sa);
    assert_eq!(sent.len(), 1);
    let ev = take_message(
        &mut sb,
        a.nodeid(),
        &from,
        &sent[0].0,
        frame(sent[0].1, &sent[0].2),
        5,
    )
    .unwrap();
    assert!(matches!(ev, IpcEvent::RecvMsg { from_name: Some(n), payload, .. }
        if n == "alice" && payload == b"hello from alice"));
}

#[test]
fn streams_without_a_good_token_are_rejected() {
    let (a, b) = (Identity::generate(), Identity::generate());
    let mut store = Store::new();
    store.peer_add(a.nodeid(), "alice", None).unwrap();
    let claims = new_claims(b.secret_key(), a.nodeid(), vec![], Some(3600));
    let signed = sign_token(b.secret_key(), b"claims".to_vec());
    let e = admit_stream(
        &mut store,
        &signed,
        Some(claims),
        b.nodeid(),
        a.nodeid(),
        wt::clock::unix_secs(),
        777,
    )
    .unwrap_err();
    assert!(matches!(e, AuthError::MissingCap(Cap::Msg)));
    // A rejected peer was not seen.
    assert_eq!(store.peer_list()[0].last_seen_ms, None);
    assert!(matches!(
        rejection(&e),
        IpcEvent::Failed(f) if f.code == IpcErrorCode::Unauthorized
            && f.message == "auth: missing required capability: msg"
    ));
}

#[test]
fn recv_replays_persisted_backlog() {
    let mut store = Store::new();
    let alice = NodeId([1; 32]);
    let name = Some("alice".to_string());
    for (seq, body) in [(1, b"first".as_slice()), (2, b"second"), (1, b"first")] {
        let ev = take_message(&mut store, alice, &name, "default", frame(seq, body), 9);
        // The third is a duplicate, which is dropped.
        assert_eq!(ev.is_some(), store.inbox_backlog(None, None, None, 10).len() == seq as usize);
    }
    let rows = store.inbox_backlog(None, None, None, 10);
    assert_eq!(rows.len(), 2);
    assert_eq!(rows[0].payload, b"first");
    assert_eq!(rows[1].payload, b"second");
}

#[test]
fn dead_peer_does_not_block_delivery_to_live_peer() {
    let mut store = Store::new();
    let (me, bob, ghost) = (NodeId([1; 32]), NodeId([2; 32]), NodeId([3; 32]));
    store
        .outbox_enqueue(me, ghost, "default", b"into the void".to_vec())
        .unwrap();
    store
        .outbox_enqueue(me, bob, "default", b"to the living".to_vec())
        .unwrap();
    let mut dead = Delivery::new(ghost);
    assert!(matches!(dead.next(&store), DeliveryStep::Open(_)));
    dead.failed();
    let mut alive = Delivery::new(bob);
    let sent = deliver(&mut alive, &mut store);
    assert_eq!(sent.len(), 1);
    assert_eq!(sent[0].2, b"to the living");
    assert_eq!(store.outbox_pending_peers(), vec![ghost]);
    // What failed is tried again from the start.
    assert!(matches!(dead.next(&store), DeliveryStep::Open(c) if c == "default"));
}

#[test]
fn a_failed_write_is_retried_on_a_fresh_stream() {
    let mut store = Store::new();
    let (me, bob) = (NodeId([1; 32]), NodeId([2; 32]));
    for i in 0..(DELIVERY_BATCH as u8 + 6) {
        store.outbox_enqueue_at(me, bob, "x", vec![i], 10).unwrap();
    }
    let mut d = Delivery::new(bob);
    assert!(matches!(d.next(&store), DeliveryStep::Open(_)));
    d.opened("x");
    assert!(matches!(d.next(&store), DeliveryStep::Write { frame, .. } if frame.seq == 1));
    d.failed();
    assert!(matches!(d.next(&store), DeliveryStep::Open(_)));
    let sent = deliver(&mut d, &mut store);
    let seqs: Vec<u64> = sent.iter().map(|s| s.1).collect();
    assert_eq!(seqs, (1..=DELIVERY_BATCH as u64 + 6).collect::<Vec<_>>());
    assert!(store.outbox_pending_peers().is_empty());
}

#[test]
fn dialing_needs_a_known_peer_and_a_token() {
    let mut store = Store::new();
    let (me, bob) = (NodeId([1; 32]), NodeId([2; 32]));
    assert_eq!(
        prepare_dial(&store, bob, me, 0).err().unwrap(),
        "peer not in local registry"
    );
    store.peer_add(bob, "bob", Some(vec![9])).unwrap();
    assert_eq!(
        prepare_dial(&store, bob, me, 0).err().unwrap(),
        format!(
            "no valid msg-cap token from {} present locally — ask them to grant + import",
            bob.to_string()
        )
    );
}

#[test]
fn a_message_is_shown_whether_it_was_kept_or_not() {
    let name = Some("bob".to_string());
    let mut store = Store::new();
    let seen = shown(NodeId([2; 32]), &name, "ops", &frame(4, b"hi"));
    let kept = take_message(&mut store, NodeId([2; 32]), &name, "ops", frame(4, b"hi"), 9).unwrap();
    for e in [seen, kept] {
        assert!(matches!(
            e,
            IpcEvent::RecvMsg { from: NodeId([2, ..]), from_name: Some(n), channel, payload, ts_ms: 40 }
                if n == "bob" && channel == "ops" && payload == b"hi"
        ));
    }
}

#[test]
fn followers_pass_on_what_they_asked_for() {
    let ev = IpcEvent::RecvMsg {
        from: NodeId([2; 32]),
        from_name: None,
        channel: "ops".to_string(),
        payload: vec![],
        ts_ms: 0,
    };
    let ops = Some("ops".to_string());
    let chat = Some("chat".to_string());
    assert!(passes(&ev, &Senders::Any, &None));
    assert!(passes(&ev, &Senders::Node(NodeId([2; 32])), &ops));
    assert!(!passes(&ev, &Senders::Node(NodeId([3; 32])), &ops));
    assert!(!passes(&ev, &Senders::Nobody, &None));
    assert!(!passes(&ev, &Senders::Any, &chat));
    assert!(!passes(&IpcEvent::Done, &Senders::Any, &None));
}

#[test]
fn streams_are_listed_once_per_channel() {
    let mut c = Conns::new();
    let n = NodeId([0xab; 32]);
    c.stream_opened(n, None, "ops", false, 5);
    c.stream_opened(n, Some("late".to_string()), "ops", true, 6);
    c.stream_opened(n, None, "chat", false, 7);
    let listed = c.list_conns();
    assert_eq!(listed.len(), 1);
    assert_eq!(listed[0].peer_name, "abababababab");
    assert_eq!(listed[0].since_ms, 5);
    assert!(!listed[0].via_relay);
    assert_eq!(listed[0].streams, vec!["msg:ops", "msg:chat"]);
    c.stream_closed(n, "ops");
    assert_eq!(c.open_streams(&n), Some(1));
    c.link_closed(n);
    assert_eq!(c.open_streams(&n), None);
}

#[test]
fn the_local_network_is_browsed() {
    let own = NodeId([1; 32]);
    let n = NodeId([2; 32]);
    assert_eq!(SERVICE_TYPE, "_wt._udp.local.");
    assert_eq!(instance_name(&n), "wt-0202020202020202");
    assert_eq!(host_name(&n), "wt-0202020202020202.local.");
    assert_eq!(
        properties(&n),
        vec![
            ("nodeid".to_string(), "02".repeat(32)),
            ("v".to_string(), "0.2".to_string())
        ]
    );
    let mut lan = LanPeers::new();
    let see = |lan: &mut LanPeers, id: Option<&str>, instance: &str, at: u64| {
        lan.resolve(&own, id, vec![], 1, instance.to_string(), at)
    };
    see(&mut lan, Some(&own.to_string()), "me", 1);
    see(&mut lan, Some("garbage"), "junk", 1);
    see(&mut lan, None, "none", 1);
    assert!(lan.list().is_empty());
    see(&mut lan, Some(&n.to_string()), "wt-a", 1);
    see(&mut lan, Some(&n.to_string()), "wt-a", 2);
    assert_eq!(lan.list().len(), 1);
    assert_eq!(lan.list()[0].last_seen_ms, 2);
    lan.remove("other");
    assert_eq!(lan.list().len(), 1);
    lan.remove("wt-a");
    assert!(lan.list().is_empty());
}
