//! What is kept of peers and exchanged with them: the registry, tokens, and messages.

use vstd::prelude::*;

use crate::auth;
use crate::auth::AuthError;
use crate::conns;
use crate::conns::LinkV;
use crate::crypto;
use crate::daemon;
use crate::daemon::DaemonV;
use crate::daemon::MomentV;
use crate::daemon::NextV;
use crate::daemon::ReplyV;
use crate::dispatch;
use crate::ipc::EventV;
use crate::ipc::IpcErrorCode;
use crate::ipc::IpcRequest;
use crate::ipc::PeerFilter;
use crate::ipc::PeerInfoV;
use crate::ipc::PeerState;
use crate::ipc::SelectorV;
use crate::ipc::TokenInfoV;
use crate::lan::LanV;
use crate::lookup_laws;
use crate::peering;
use crate::peering::DeliveryStepV;
use crate::peering::DeliveryV;
use crate::peering::SendersV;
use crate::queries;
use crate::rows::MessageV;
use crate::rows::PeerV;
use crate::rows::TokenV;
use crate::spawn_laws;
use crate::store;
use crate::store::StoreV;
use crate::store_laws;
use crate::table;
use crate::text;
use crate::token::Cap;
use crate::token::ClaimsV;
use crate::token::SignedToken;
use crate::wire::MessageFrame;

verus! {

// ----- receiving -----

/// Whether what came from peers is filed under the peer that it came from.
pub open spec fn filed_by_sender(s: StoreV) -> bool {
    forall|i: int|
        0 <= i < s.messages.len() && (#[trigger] s.messages[i]).direction is In
            ==> s.messages[i].sender == s.messages[i].peer_nodeid
}

/// What comes from peers is filed under the peer that it came from, whatever is asked and whatever
/// comes or is delivered.
pub proof fn law_messages_are_filed_by_sender(
    s: DaemonV,
    req: IpcRequest,
    at: MomentV,
    sender: Seq<u8>,
    channel: Seq<char>,
    channel_id: Seq<u8>,
    seq: u64,
    payload: Seq<u8>,
    ts_ms: u64,
    now_ms: u64,
)
    requires
        filed_by_sender(s.store),
    ensures
        filed_by_sender(dispatch::handled(s, req, at).state.store),
        filed_by_sender(store::recorded(s.store, sender, channel, seq, payload, ts_ms, now_ms)),
        filed_by_sender(store::delivered(s.store, sender, channel_id, seq, now_ms)),
{
    let t = dispatch::handled(s, req, at).state.store;
    assert forall|i: int|
        0 <= i < t.messages.len() && (#[trigger] t.messages[i]).direction is In implies t.messages[i].sender
        == t.messages[i].peer_nodeid by {
        if i < s.store.messages.len() {
            assert(t.messages[i] == s.store.messages[i]);
        }
    }
    let u = store::recorded(s.store, sender, channel, seq, payload, ts_ms, now_ms);
    assert forall|i: int|
        0 <= i < u.messages.len() && (#[trigger] u.messages[i]).direction is In implies u.messages[i].sender
        == u.messages[i].peer_nodeid by {
        if i < s.store.messages.len() {
            assert(u.messages[i] == s.store.messages[i]);
        }
    }
    let v = store::delivered(s.store, sender, channel_id, seq, now_ms);
    assert forall|i: int|
        0 <= i < v.messages.len() && (#[trigger] v.messages[i]).direction is In implies v.messages[i].sender
        == v.messages[i].peer_nodeid by {
        assert(s.store.messages[i].direction is In);
    }
}

/// Whether a message is one that a subscriber asks for: from the peer that it names, on the channel that
/// it names, after the moment that it gives.
pub open spec fn subscribed(
    s: StoreV,
    m: MessageV,
    peer: Option<SelectorV>,
    channel: Option<Seq<char>>,
    since_ms: Option<u64>,
) -> bool {
    &&& m.direction is In
    &&& channel is Some ==> m.channel == channel->0
    &&& since_ms is Some ==> m.enqueued_at_ms > since_ms->0
    &&& match peer {
        None => true,
        Some(SelectorV::NodeId(n)) => m.sender == n,
        Some(SelectorV::Name(n)) => exists|p: PeerV| #[trigger]
            s.peers.contains(p) && p.name == n && p.nodeid == m.sender,
    }
}

/// Whether an event is a message that a subscriber listens for: from the peer and on the channel that
/// it names.
pub open spec fn listened_for(
    s: StoreV,
    e: EventV,
    peer: Option<SelectorV>,
    channel: Option<Seq<char>>,
) -> bool {
    e matches EventV::RecvMsg { from, channel: on, .. } && {
        &&& channel is Some ==> on == channel->0
        &&& match peer {
            None => true,
            Some(SelectorV::NodeId(n)) => from == n,
            Some(SelectorV::Name(n)) => exists|p: PeerV| #[trigger]
                s.peers.contains(p) && p.name == n && p.nodeid == from,
        }
    }
}

/// Whether an event shows a message as it came, under the name of its sender where it has one.
pub open spec fn shows(s: StoreV, e: EventV, m: MessageV) -> bool {
    e matches EventV::RecvMsg { from, from_name, channel, payload, ts_ms } && {
        &&& from == m.sender
        &&& channel == m.channel
        &&& payload == m.payload
        &&& ts_ms == m.enqueued_at_ms
        &&& from_name is Some ==> exists|p: PeerV| #[trigger]
            s.peers.contains(p) && p.nodeid == m.sender && p.name == from_name->0
        &&& from_name is None ==> forall|i: int|
            0 <= i < s.peers.len() ==> (#[trigger] s.peers[i]).nodeid != m.sender
    }
}

/// A subscriber to the inbox is shown the messages that it asks for and no others: of the peer, the
/// channel and the time that it asks for, all at once, oldest first and as they came. After them comes
/// the end of the backlog. As long as the backlog is not full every such message is shown, and else the
/// oldest are. Where it follows, it goes on with the same filters: whatever it is shown of the backlog
/// it would be shown live.
pub proof fn law_subscriber_is_shown_what_it_asks_for(
    s: DaemonV,
    req: IpcRequest,
    at: MomentV,
    m: MessageV,
    e: EventV,
    i: int,
    j: int,
)
    requires
        req is RecvSubscribe,
        store_laws::wf(s.store),
        filed_by_sender(s.store),
    ensures
        ({
            let peer = daemon::opt_selector(req->RecvSubscribe_peer);
            let channel = text::opt_text(req->RecvSubscribe_channel);
            let since_ms = req->RecvSubscribe_since_ms;
            let r = dispatch::handled(s, req, at);
            let n = r.events.len() - 1;
            &&& r.state == s
            &&& 0 <= n <= 10_000
            &&& r.events[n] is RecvBacklogEnd
            &&& 0 <= i < n ==> exists|x: MessageV| #[trigger]
                s.store.messages.contains(x) && subscribed(s.store, x, peer, channel, since_ms)
                    && shows(s.store, r.events[i], x)
            &&& s.store.messages.contains(m) && subscribed(s.store, m, peer, channel, since_ms) && n
                < 10_000 ==> exists|k: int| 0 <= k < n && #[trigger] shows(s.store, r.events[k], m)
            &&& s.store.messages.contains(m) && subscribed(s.store, m, peer, channel, since_ms) && 0
                <= i < n ==> r.events[i]->RecvMsg_ts_ms <= m.enqueued_at_ms || exists|k: int|
                0 <= k < n && #[trigger] shows(s.store, r.events[k], m)
            &&& 0 <= i < j < n ==> r.events[i]->RecvMsg_ts_ms <= r.events[j]->RecvMsg_ts_ms
            &&& r.next is FollowInbox == req->RecvSubscribe_follow
            &&& !req->RecvSubscribe_follow ==> r.next is Done
            &&& r.next matches NextV::FollowInbox { peer: p, channel: c } ==> {
                &&& 0 <= i < n ==> peering::follows(r.events[i], p, c)
                &&& peering::follows(e, p, c) <==> listened_for(s.store, e, peer, channel)
            }
        }),
{
    let peer = daemon::opt_selector(req->RecvSubscribe_peer);
    let channel = text::opt_text(req->RecvSubscribe_channel);
    let since_ms = req->RecvSubscribe_since_ms;
    let r = dispatch::handled(s, req, at);
    let want = daemon::wanted_peer(s, peer);
    let all = daemon::wanted_inbox(s.store, want, channel, since_ms);
    let rows = table::at_most(all, daemon::BACKLOG_LIMIT as int);
    assert forall|k: int| 0 <= k < rows.len() implies rows[k] == all[k] by {}
    lemma_wanted(s, peer, channel, since_ms, m, i, j);
    if 0 <= i < rows.len() {
        lemma_wanted(s, peer, channel, since_ms, rows[i], i, j);
        assert(all.contains(rows[i]));
        lemma_shows(s.store, rows[i]);
        assert(r.events[i] == daemon::received(s.store, rows[i]));
        assert(s.store.messages.contains(rows[i]));
    }
    if all.contains(m) {
        let k = choose|k: int| 0 <= k < all.len() && all[k] == m;
        if k < rows.len() {
            lemma_shows(s.store, m);
            assert(r.events[k] == daemon::received(s.store, rows[k]));
            assert(shows(s.store, r.events[k], m));
        } else if 0 <= i < rows.len() {
            lemma_wanted(s, peer, channel, since_ms, m, i, k);
        }
    }
    if 0 <= i < j < rows.len() {
        assert(r.events[i] == daemon::received(s.store, rows[i]));
        assert(r.events[j] == daemon::received(s.store, rows[j]));
    }
    if let Some(SelectorV::Name(n)) = peer {
        lemma_peer_of_name(s.store, n);
    }
}

proof fn lemma_peer_of_name(s: StoreV, name: Seq<char>)
    requires
        store_laws::wf(s),
    ensures
        match store::peer_of(s, SelectorV::Name(name)) {
            Some(p) => {
                &&& s.peers.contains(p) && p.name == name
                &&& forall|q: PeerV| #[trigger] s.peers.contains(q) && q.name == name ==> q == p
            },
            None => forall|q: PeerV| #[trigger] s.peers.contains(q) ==> q.name != name,
        },
{
    lookup_laws::law_peer_is_found(s, name, Seq::empty());
    if let Some(p) = store::peer_of(s, SelectorV::Name(name)) {
        assert forall|q: PeerV| #[trigger] s.peers.contains(q) && q.name == name implies q == p by {
            lemma_one_peer_of_a_name(s, p, q);
        }
    } else {
        assert forall|q: PeerV| #[trigger] s.peers.contains(q) implies q.name != name by {
            let k = choose|k: int| 0 <= k < s.peers.len() && s.peers[k] == q;
            assert(s.peers[k].name != name);
        }
    }
}

proof fn lemma_shows(s: StoreV, m: MessageV)
    ensures
        shows(s, daemon::received(s, m), m),
{
    lookup_laws::law_peer_is_found(s, Seq::empty(), m.sender);
}

proof fn lemma_wanted(
    s: DaemonV,
    peer: Option<SelectorV>,
    channel: Option<Seq<char>>,
    since_ms: Option<u64>,
    m: MessageV,
    i: int,
    j: int,
)
    requires
        store_laws::wf(s.store),
        filed_by_sender(s.store),
    ensures
        ({
            let want = daemon::wanted_peer(s, peer);
            let all = daemon::wanted_inbox(s.store, want, channel, since_ms);
            &&& all.contains(m) <==> s.store.messages.contains(m) && subscribed(
                s.store,
                m,
                peer,
                channel,
                since_ms,
            )
            &&& all.contains(m) ==> peering::wants(want, m.sender)
            &&& 0 <= i < j < all.len() ==> all[i].enqueued_at_ms <= all[j].enqueued_at_ms
        }),
{
    let want = daemon::wanted_peer(s, peer);
    if s.store.messages.contains(m) && m.direction is In {
        let k = choose|k: int| 0 <= k < s.store.messages.len() && s.store.messages[k] == m;
        assert(s.store.messages[k].sender == s.store.messages[k].peer_nodeid);
    }
    match want {
        SendersV::Any => {
            lookup_laws::law_inbox_holds(s.store, None, channel, since_ms, m, i, j);
        },
        SendersV::Node(n) => {
            lookup_laws::law_inbox_holds(s.store, Some(n), channel, since_ms, m, i, j);
        },
        SendersV::Nobody => {},
    }
    if let Some(SelectorV::Name(n)) = peer {
        lemma_peer_of_name(s.store, n);
    }
}

proof fn lemma_one_peer_of_a_name(s: StoreV, p: PeerV, q: PeerV)
    requires
        store_laws::wf(s),
        s.peers.contains(p),
        s.peers.contains(q),
        p.name == q.name,
    ensures
        p == q,
{
    let i = choose|i: int| 0 <= i < s.peers.len() && s.peers[i] == p;
    let j = choose|j: int| 0 <= j < s.peers.len() && s.peers[j] == q;
    let key = store_laws::peer_name_key();
    if i < j {
        assert(key(s.peers[i]) != key(s.peers[j]));
    } else if j < i {
        assert(key(s.peers[j]) != key(s.peers[i]));
    }
}

/// A follower of the inbox is shown messages only: of the peer that it asks for, where it asks for one,
/// and on the channel that it asks for; whoever asks for nobody's is shown nothing.
pub proof fn law_follower_is_shown_what_it_asks_for(
    from: Seq<u8>,
    from_name: Option<Seq<char>>,
    on: Seq<char>,
    payload: Seq<u8>,
    ts_ms: u64,
    node: Seq<u8>,
    channel: Option<Seq<char>>,
    other: EventV,
)
    ensures
        ({
            let e = EventV::RecvMsg { from, from_name, channel: on, payload, ts_ms };
            let on_channel = channel is Some ==> channel->0 == on;
            &&& peering::follows(e, SendersV::Any, channel) == on_channel
            &&& peering::follows(e, SendersV::Node(node), channel) == (on_channel && node == from)
            &&& !peering::follows(e, SendersV::Nobody, channel)
        }),
        !(other is RecvMsg) ==> !peering::follows(other, SendersV::Any, None),
{
}

/// A message that comes for the first time is kept as it came, under its sender, and shown as it came;
/// one that came before, under the same number on the same channel, changes nothing and is not shown.
pub proof fn law_message_is_taken_once(
    s: StoreV,
    remote: Seq<u8>,
    from_name: Option<Seq<char>>,
    channel: Seq<char>,
    frame: MessageFrame,
    now_ms: u64,
)
    ensures
        ({
            let t = store::recorded(
                s,
                remote,
                channel,
                frame.seq,
                frame.payload@,
                frame.ts_ms,
                now_ms,
            );
            let seen = exists|i: int|
                0 <= i < s.messages.len() && (#[trigger] s.messages[i]).sender == remote
                    && s.messages[i].channel_id == crypto::blake3_digest(text::utf8(channel)).take(
                    16,
                ) && s.messages[i].seq == frame.seq;
            if seen {
                &&& t == s
                &&& peering::taken(s, remote, from_name, channel, frame) is None
            } else {
                let m = t.messages.last();
                &&& t == (StoreV { messages: s.messages.push(m), ..s })
                &&& m.direction is In && m.sender == remote && m.peer_nodeid == remote
                &&& m.channel == channel && m.seq == frame.seq && m.payload == frame.payload@
                &&& m.channel_id == crypto::blake3_digest(text::utf8(channel)).take(16)
                &&& m.enqueued_at_ms == frame.ts_ms && m.delivered_at_ms == Some(now_ms)
                &&& peering::taken(s, remote, from_name, channel, frame) == Some(
                    EventV::RecvMsg {
                        from: remote,
                        from_name,
                        channel,
                        payload: frame.payload@,
                        ts_ms: frame.ts_ms,
                    },
                )
            }
        }),
{
    let key = store::channel_key(channel);
    let p = queries::message_with_key(remote, key, frame.seq);
    if table::any_of(s.messages, p) {
        let i = choose|i: int| 0 <= i < s.messages.len() && p(#[trigger] s.messages[i]);
        assert(s.messages[i].sender == remote);
    } else {
        assert forall|i: int| 0 <= i < s.messages.len() implies !((
        #[trigger] s.messages[i]).sender == remote && s.messages[i].channel_id == key
            && s.messages[i].seq == frame.seq) by {
            assert(!p(s.messages[i]));
        }
    }
}

// ----- sending -----

/// A message to a known peer waits in the outbox for that peer, as it was given, numbered behind all
/// that was sent on its channel, and the delivery to that peer is woken. Nothing else changes. A peer
/// that is not known is not found.
pub proof fn law_message_is_put_in_the_outbox(
    s: DaemonV,
    peer: SelectorV,
    channel: Seq<char>,
    payload: Seq<u8>,
    at: MomentV,
    i: int,
)
    ensures
        ({
            let r = daemon::send_reply(s, peer, channel, payload, at);
            match store::peer_of(s.store, peer) {
                None => spawn_laws::refuses(r, s, IpcErrorCode::NotFound),
                Some(p) => spawn_laws::refuses(r, s, IpcErrorCode::Internal) || {
                    let m = r.state.store.messages.last();
                    &&& r.events == seq![EventV::Done]
                    &&& r.next == NextV::Wake(p.nodeid)
                    &&& r.state == daemon::with_store(s, r.state.store)
                    &&& r.state.store == (StoreV {
                        messages: s.store.messages.push(m),
                        ..s.store
                    })
                    &&& m.direction is Out && m.peer_nodeid == p.nodeid
                    &&& m.sender == crypto::ed25519_public(s.secret)
                    &&& m.channel == channel && m.payload == payload
                    &&& m.channel_id == crypto::blake3_digest(text::utf8(channel)).take(16)
                    &&& m.enqueued_at_ms == at.now_ms && m.delivered_at_ms is None
                    &&& m.seq > 0
                    &&& 0 <= i < s.store.messages.len() && s.store.messages[i].sender == m.sender
                        && s.store.messages[i].channel_id == m.channel_id
                        ==> s.store.messages[i].seq < m.seq
                    &&& m.seq == 1 || exists|k: int|
                        0 <= k < s.store.messages.len() && (#[trigger] s.store.messages[k]).sender
                            == m.sender && s.store.messages[k].channel_id == m.channel_id
                            && s.store.messages[k].seq == m.seq - 1
                },
            }
        }),
        store::peer_of(s.store, peer) is Some && spawn_laws::refuses(
            daemon::send_reply(s, peer, channel, payload, at),
            s,
            IpcErrorCode::Internal,
        ) ==> exists|k: int|
            0 <= k < s.store.messages.len() && (#[trigger] s.store.messages[k]).seq == u64::MAX,
{
    let local = daemon::local_id(s);
    let key = store::channel_key(channel);
    let p = queries::message_on_channel(local, key);
    let n = queries::message_seq();
    let last = store::last_message_seq(s.store, local, key);
    lookup_laws::lemma_highest_is_reached(s.store.messages, p, n);
    if 0 <= i < s.store.messages.len() && p(s.store.messages[i]) {
        table::lemma_highest(s.store.messages, p, n, i);
    }
    if last > 0 {
        let k = choose|k: int|
            0 <= k < s.store.messages.len() && p(#[trigger] s.store.messages[k]) && n(
                s.store.messages[k],
            ) == last;
        assert(s.store.messages[k].seq == last && p(s.store.messages[k]));
    }
}

/// A delivery writes the oldest message that waits for its peer, as it was sent, on a stream of the
/// message's channel; it opens that stream first where it is not open, and waits exactly where nothing
/// waits for the peer. What was written, and nothing else, counts as delivered.
pub proof fn law_delivery_writes_the_oldest(d: DeliveryV, s: StoreV, now_ms: u64, m: MessageV, k: int)
    requires
        d.batch.len() == 0,
    ensures
        ({
            let b = peering::working_batch(d, s);
            let waits = s.messages.contains(m) && m.direction is Out && m.delivered_at_ms is None
                && m.peer_nodeid == d.peer;
            &&& b.len() <= 64
            &&& waits ==> b.len() > 0 && b[0].enqueued_at_ms <= m.enqueued_at_ms
            &&& b.len() > 0 ==> {
                &&& s.messages.contains(b[0])
                &&& b[0].direction is Out && b[0].delivered_at_ms is None
                &&& b[0].peer_nodeid == d.peer
            }
            &&& match peering::delivery_step(d, s) {
                DeliveryStepV::Wait => b.len() == 0,
                DeliveryStepV::Open(c) => b.len() > 0 && c == b[0].channel && !d.channels.contains(
                    c,
                ),
                DeliveryStepV::Write { channel, seq, ts_ms, payload } => {
                    &&& b.len() > 0
                    &&& channel == b[0].channel && d.channels.contains(channel)
                    &&& seq == b[0].seq && ts_ms == b[0].enqueued_at_ms
                    &&& payload == b[0].payload
                },
            }
        }),
        ({
            let held = DeliveryV { batch: peering::working_batch(d, s), ..d };
            let t = peering::after_write(held, s, now_ms);
            held.batch.len() > 0 ==> {
                &&& peering::wrote(held).batch == held.batch.skip(1)
                &&& peering::wrote(held).peer == d.peer
                &&& peering::wrote(held).channels == d.channels
                &&& t == (StoreV { messages: t.messages, ..s })
                &&& t.messages.len() == s.messages.len()
                &&& 0 <= k < s.messages.len() ==> t.messages[k] == if s.messages[k].sender
                    == held.batch[0].sender && s.messages[k].channel_id == held.batch[0].channel_id
                    && s.messages[k].seq == held.batch[0].seq && s.messages[k].direction is Out {
                    MessageV { delivered_at_ms: Some(now_ms), ..s.messages[k] }
                } else {
                    s.messages[k]
                }
            }
        }),
{
    let all = store::pending_for(s, d.peer);
    let b = peering::working_batch(d, s);
    lookup_laws::law_outbox_holds(s, d.peer, m, 0, 0);
    if all.contains(m) {
        let n = choose|n: int| 0 <= n < all.len() && all[n] == m;
        lookup_laws::law_outbox_holds(s, d.peer, m, 0, n);
        assert(b[0] == all[0]);
    }
    if b.len() > 0 {
        assert(b[0] == all[0]);
        assert(all.contains(all[0]));
        lookup_laws::law_outbox_holds(s, d.peer, all[0], 0, 0);
    }
}

/// A delivery that holds messages goes on with the first of them, on a stream of its channel.
pub proof fn law_delivery_goes_on(d: DeliveryV, s: StoreV)
    requires
        d.batch.len() > 0,
    ensures
        peering::working_batch(d, s) == d.batch,
        match peering::delivery_step(d, s) {
            DeliveryStepV::Wait => false,
            DeliveryStepV::Open(c) => c == d.batch[0].channel && !d.channels.contains(c),
            DeliveryStepV::Write { channel, seq, ts_ms, payload } => {
                &&& channel == d.batch[0].channel && d.channels.contains(channel)
                &&& seq == d.batch[0].seq && ts_ms == d.batch[0].enqueued_at_ms
                &&& payload == d.batch[0].payload
            },
        },
        peering::restarted(d).channels.len() == 0,
        peering::restarted(d).batch.len() == 0,
        peering::restarted(d).peer == d.peer,
{
}

/// A stream to a peer is opened under the peer's name and address, with a token that the peer issued to
/// the local node, that carries the capability, is not revoked and is still good; and of those with one
/// that expires last. Where there is such a token and the peer is known it can be opened.
pub proof fn law_dial_presents_a_good_token(
    s: StoreV,
    target: Seq<u8>,
    local: Seq<u8>,
    now_secs: u64,
    other: TokenV,
)
    ensures
        ({
            let good = |t: TokenV|
                t.iss == target && t.sub == local && !t.revoked && t.exp > now_secs
                    && t.caps.contains(Cap::Msg);
            let known = exists|i: int|
                0 <= i < s.peers.len() && (#[trigger] s.peers[i]).nodeid == target;
            &&& peering::dial_of(s, target, local, now_secs) matches Some(d) ==> {
                &&& exists|p: PeerV| #[trigger]
                    s.peers.contains(p) && p.nodeid == target && d.name == p.name && d.addr_blob
                        == p.addr_blob
                &&& exists|t: TokenV| #[trigger]
                    s.tokens.contains(t) && good(t) && d.token == t.raw && (s.tokens.contains(other)
                        && good(other) ==> other.exp <= t.exp)
            }
            &&& known && s.tokens.contains(other) && good(other) ==> peering::dial_of(
                s,
                target,
                local,
                now_secs,
            ) is Some
            &&& !known ==> peering::dial_of(s, target, local, now_secs) is None
                && peering::dial_refusal(s, target) == "peer not in local registry"@
        }),
{
    lookup_laws::law_peer_is_found(s, Seq::empty(), target);
    peering::law_presented_token_is_the_best(s, target, local, now_secs, other);
    if let Some(p) = store::peer_of(s, SelectorV::NodeId(target)) {
        let i = choose|i: int| 0 <= i < s.peers.len() && s.peers[i] == p;
        assert(s.peers[i].nodeid == target);
        if let Some(t) = peering::token_for(s, target, local, now_secs) {
            assert(s.tokens.contains(t));
        }
    }
}

// ----- letting in -----

/// A stream is accepted from a peer exactly where its token was issued by the local node to that peer,
/// bears that node's signature, has not expired by more than five minutes, is not revoked here, and
/// carries the capability. It is then accepted under the peer's name, and the peer noted as seen;
/// else nothing changes.
pub proof fn law_stream_is_accepted_iff(
    signed: SignedToken,
    claims: Option<ClaimsV>,
    local: Seq<u8>,
    remote: Seq<u8>,
    s: StoreV,
    now_secs: u64,
    now_ms: u64,
    i: int,
)
    requires
        store_laws::wf(s),
    ensures
        ({
            let a = peering::admission(signed, claims, local, remote, s, now_secs);
            let t = peering::after_admission(signed, claims, local, remote, s, now_secs, now_ms);
            let good = claims is Some && {
                let c = claims->0;
                &&& c.iss == local
                &&& signed.sig@.len() == 64
                &&& crypto::signature_valid(local, signed.claims_cbor@, signed.sig@)
                &&& c.sub == remote
                &&& now_secs <= c.exp + 300
                &&& !(exists|k: int|
                    0 <= k < s.tokens.len() && (#[trigger] s.tokens[k]).id == c.id
                        && s.tokens[k].revoked)
                &&& c.caps.contains(Cap::Msg)
            };
            &&& a is Ok <==> good
            &&& a matches Ok(Some(n)) ==> exists|p: PeerV| #[trigger]
                s.peers.contains(p) && p.nodeid == remote && p.name == n
            &&& a matches Ok(None) ==> forall|k: int|
                0 <= k < s.peers.len() ==> (#[trigger] s.peers[k]).nodeid != remote
            &&& a is Err ==> t == s
            &&& a is Ok ==> {
                &&& t == (StoreV { peers: t.peers, ..s })
                &&& t.peers.len() == s.peers.len()
                &&& 0 <= i < s.peers.len() ==> t.peers[i] == if s.peers[i].nodeid == remote {
                    PeerV { last_seen_ms: Some(now_ms), ..s.peers[i] }
                } else {
                    s.peers[i]
                }
            }
        }),
{
    if let Some(c) = claims {
        auth::law_token_accepted_iff(signed, c, local, remote, Cap::Msg, s, now_secs);
        lookup_laws::law_revoked_token_is_known(s, c.id);
    }
    lookup_laws::law_peer_is_found(s, Seq::empty(), remote);
}

/// Why a token is not accepted: what cannot be read, then what was issued by another node, then a
/// signature that is not the issuer's, then what was issued to another node, then what has expired,
/// then what was revoked, then what lacks the capability.
pub proof fn law_reasons_come_in_order(
    signed: SignedToken,
    c: ClaimsV,
    local: Seq<u8>,
    initiator: Seq<u8>,
    required: Cap,
    s: StoreV,
    now_secs: u64,
)
    requires
        store_laws::wf(s),
    ensures
        auth::refusal(signed, None, local, initiator, required, s, now_secs) == Some(
            AuthError::BadClaims,
        ),
        ({
            let r = auth::refusal(signed, Some(c), local, initiator, required, s, now_secs);
            let signed_well = signed.sig@.len() == 64 && crypto::signature_valid(
                c.iss,
                signed.claims_cbor@,
                signed.sig@,
            );
            let revoked = exists|k: int|
                0 <= k < s.tokens.len() && (#[trigger] s.tokens[k]).id == c.id
                    && s.tokens[k].revoked;
            r == if c.iss != local {
                Some(AuthError::NotForUs)
            } else if !signed_well {
                Some(AuthError::BadSignature)
            } else if c.sub != initiator {
                Some(AuthError::SubjectMismatch)
            } else if now_secs > c.exp + 300 {
                Some(AuthError::Expired { exp: c.exp, now: now_secs })
            } else if revoked {
                Some(AuthError::Revoked)
            } else if !c.caps.contains(required) {
                Some(AuthError::MissingCap(required))
            } else {
                None
            }
        }),
{
    lookup_laws::law_revoked_token_is_known(s, c.id);
}

// ----- tokens -----

/// What is granted is issued by the local node to the peer that is named, with the capabilities that are
/// asked for, for as long as is asked for, under the fresh identifier; without a limit it lasts until
/// the year 2100. It is kept as it is handed out. A peer that is not known is not found.
pub proof fn law_grant_is_as_asked(
    s: DaemonV,
    peer: SelectorV,
    caps: Seq<Cap>,
    ttl_secs: Option<u64>,
    at: MomentV,
    raw: Seq<u8>,
)
    ensures
        match store::peer_of(s.store, peer) {
            None => spawn_laws::refuses(
                daemon::token_grant_reply(s, peer, caps, ttl_secs, at),
                s,
                IpcErrorCode::NotFound,
            ),
            Some(p) => {
                let r = daemon::token_grant_reply(s, peer, caps, ttl_secs, at);
                &&& r.state == s && r.events.len() == 0
                &&& r.next matches NextV::Encode(c) && {
                    &&& c.iss == crypto::ed25519_public(s.secret)
                    &&& c.sub == p.nodeid
                    &&& c.caps == caps
                    &&& c.id == at.id
                    &&& ttl_secs is None ==> c.exp == 4_102_444_800
                    &&& ttl_secs is Some && at.now_secs + ttl_secs->0 <= u64::MAX ==> c.exp
                        == at.now_secs + ttl_secs->0
                    &&& ttl_secs is Some && at.now_secs + ttl_secs->0 > u64::MAX ==> c.exp
                        == u64::MAX
                    &&& keeps_token(s, daemon::granted_reply(s, c, raw), c, raw)
                    &&& daemon::granted_reply(s, c, raw).events.len() == 1
                    &&& daemon::granted_reply(s, c, raw).events[0] matches EventV::TokenIssued {
                        raw: handed,
                        info,
                    } && handed == raw && tells_claims(info, c, false)
                }
            },
        },
{
    let p = store::peer_of(s.store, peer);
    if p is Some {
        let c = daemon::granted_claims(s, p->0.nodeid, caps, ttl_secs, at);
        lemma_keeps_token(s, daemon::granted_reply(s, c, raw), c, raw);
    }
}

/// Whether an answer keeps a token of the given claims and bytes: as a new row that is not revoked where
/// the identifier is new, and nothing but the bytes and the state of revocation of a known one.
pub open spec fn keeps_token(s: DaemonV, r: ReplyV, c: ClaimsV, raw: Seq<u8>) -> bool {
    let t = r.state.store;
    let fresh = forall|k: int|
        0 <= k < s.store.tokens.len() ==> (#[trigger] s.store.tokens[k]).id != c.id;
    &&& r.state == daemon::with_store(s, t)
    &&& t == (StoreV { tokens: t.tokens, ..s.store })
    &&& fresh ==> t.tokens == s.store.tokens.push(
        TokenV {
            id: c.id,
            iss: c.iss,
            sub: c.sub,
            exp: c.exp,
            caps: c.caps,
            raw,
            revoked: false,
        },
    )
    &&& !fresh ==> t.tokens.len() == s.store.tokens.len() && forall|i: int|
        0 <= i < t.tokens.len() ==> #[trigger] t.tokens[i] == if s.store.tokens[i].id == c.id {
            TokenV { raw, revoked: false, ..s.store.tokens[i] }
        } else {
            s.store.tokens[i]
        }
}

proof fn lemma_keeps_token(s: DaemonV, r: ReplyV, c: ClaimsV, raw: Seq<u8>)
    requires
        r.state == daemon::with_store(s, store::token_inserted(s.store, auth::row_of(c, raw))),
    ensures
        keeps_token(s, r, c, raw),
{
    let t = r.state.store;
    let row = auth::row_of(c, raw);
    lookup_laws::law_token_is_kept(s.store, row, c.id, 0);
    let fresh = forall|k: int|
        0 <= k < s.store.tokens.len() ==> (#[trigger] s.store.tokens[k]).id != row.id;
    if !fresh {
        assert forall|i: int| 0 <= i < t.tokens.len() implies #[trigger] t.tokens[i]
            == if s.store.tokens[i].id == c.id {
            TokenV { raw, revoked: false, ..s.store.tokens[i] }
        } else {
            s.store.tokens[i]
        } by {
            lookup_laws::law_token_is_kept(s.store, row, c.id, i);
        }
    }
}

/// Whether a token is told as its claims say.
pub open spec fn tells_claims(i: TokenInfoV, c: ClaimsV, revoked: bool) -> bool {
    &&& i.id == c.id
    &&& i.iss == c.iss
    &&& i.sub == c.sub
    &&& i.exp == c.exp
    &&& i.caps == c.caps
    &&& i.revoked == revoked
}

/// A token is imported exactly where it bears the signature of the issuer that it names, was issued to
/// the local node, and its issuer is a known peer. It is then kept and told; else nothing changes.
pub proof fn law_import_is_checked(
    s: DaemonV,
    signed: SignedToken,
    claims: Option<ClaimsV>,
    raw: Seq<u8>,
)
    ensures
        ({
            let r = daemon::import_reply(s, signed, claims, raw);
            let signed_well = claims is Some && signed.sig@.len() == 64 && crypto::signature_valid(
                claims->0.iss,
                signed.claims_cbor@,
                signed.sig@,
            );
            let known = claims is Some && exists|i: int|
                0 <= i < s.store.peers.len() && (#[trigger] s.store.peers[i]).nodeid
                    == claims->0.iss;
            if !signed_well {
                spawn_laws::refuses(r, s, IpcErrorCode::Unauthorized)
            } else if claims->0.sub != crypto::ed25519_public(s.secret) || !known {
                spawn_laws::refuses(r, s, IpcErrorCode::BadRequest)
            } else {
                &&& keeps_token(s, r, claims->0, raw)
                &&& r.next is Done
                &&& r.events.len() == 2
                &&& r.events[0] matches EventV::TokenListItem(i) && tells_claims(
                    i,
                    claims->0,
                    false,
                )
                &&& r.events[1] is Done
            }
        }),
{
    if let Some(c) = claims {
        lookup_laws::law_peer_is_found(s.store, Seq::empty(), c.iss);
        let r = daemon::import_reply(s, signed, claims, raw);
        if auth::signed_by_issuer(signed, c) && c.sub == daemon::local_id(s) && auth::peer_known(
            s.store,
            c.iss,
        ) {
            lemma_keeps_token(s, r, c, raw);
        }
    }
}

/// Whether an event lists a token as it is kept.
pub open spec fn lists_token(e: EventV, t: TokenV) -> bool {
    e matches EventV::TokenListItem(i) && i.id == t.id && i.iss == t.iss && i.sub == t.sub && i.exp
        == t.exp && i.caps == t.caps && i.revoked == t.revoked
}

/// A listing of tokens shows every token as it is kept, revoked or not, and no other; those that expire
/// last come first.
pub proof fn law_tokens_are_listed(s: DaemonV, t: TokenV, i: int, j: int)
    ensures
        ({
            let r = daemon::token_list_reply(s);
            let n = s.store.tokens.len() as int;
            &&& r.state == s && r.next is Done
            &&& r.events.len() == n + 1
            &&& r.events[n] is TokenListEnd
            &&& s.store.tokens.contains(t) ==> exists|k: int|
                0 <= k < n && #[trigger] lists_token(r.events[k], t)
            &&& 0 <= i < n ==> exists|u: TokenV| #[trigger]
                s.store.tokens.contains(u) && lists_token(r.events[i], u)
            &&& 0 <= i < j < n ==> r.events[i]->TokenListItem_0.exp
                >= r.events[j]->TokenListItem_0.exp
        }),
{
    let le = queries::tokens_by_expiry();
    let rows = table::stable_order(s.store.tokens, le);
    let r = daemon::token_list_reply(s);
    table::law_stable_order(s.store.tokens, le);
    table::lemma_stable_order_members(s.store.tokens, le, t);
    if rows.contains(t) {
        let k = choose|k: int| 0 <= k < rows.len() && rows[k] == t;
        assert(lists_token(r.events[k], t));
    }
    if 0 <= i < rows.len() {
        assert(rows.contains(rows[i]));
        table::lemma_stable_order_members(s.store.tokens, le, rows[i]);
        assert(lists_token(r.events[i], rows[i]));
        assert(s.store.tokens.contains(rows[i]));
    }
    if 0 <= i < j < rows.len() {
        assert(le(rows[i], rows[j]));
    }
}

/// A token that is there is revoked, and nothing else changes; one that is not there is not found.
pub proof fn law_token_is_revoked(s: DaemonV, id: Seq<u8>, i: int)
    ensures
        ({
            let r = daemon::token_revoke_reply(s, id);
            let there = exists|k: int|
                0 <= k < s.store.tokens.len() && (#[trigger] s.store.tokens[k]).id == id;
            if there {
                let t = r.state.store;
                &&& r.events == seq![EventV::Done]
                &&& r.next is Done
                &&& r.state == daemon::with_store(s, t)
                &&& t == (StoreV { tokens: t.tokens, ..s.store })
                &&& t.tokens.len() == s.store.tokens.len()
                &&& 0 <= i < t.tokens.len() ==> t.tokens[i] == if s.store.tokens[i].id == id {
                    TokenV { revoked: true, ..s.store.tokens[i] }
                } else {
                    s.store.tokens[i]
                }
            } else {
                spawn_laws::refuses(r, s, IpcErrorCode::NotFound)
            }
        }),
{
    let p = queries::token_with_id(id);
    if table::any_of(s.store.tokens, p) {
        let k = choose|k: int| 0 <= k < s.store.tokens.len() && p(#[trigger] s.store.tokens[k]);
        assert(s.store.tokens[k].id == id);
    } else {
        assert forall|k: int| 0 <= k < s.store.tokens.len() implies (
        #[trigger] s.store.tokens[k]).id != id by {
            assert(!p(s.store.tokens[k]));
        }
    }
}

// ----- the registry -----

/// A peer is added under a name that no other node has. A node that is known gets the name, and the
/// address where one is given; a new one gets a row of its own, not seen yet. Every other row stays as
/// it was. Under another node's name it is refused.
pub proof fn law_peer_is_added(
    s: DaemonV,
    nodeid: Seq<u8>,
    name: Seq<char>,
    addr_blob: Option<Seq<u8>>,
    now_ms: u64,
    i: int,
)
    ensures
        ({
            let r = daemon::peer_add_reply(s, nodeid, name, addr_blob, now_ms);
            let taken = exists|k: int|
                0 <= k < s.store.peers.len() && (#[trigger] s.store.peers[k]).name == name
                    && s.store.peers[k].nodeid != nodeid;
            let known = exists|k: int|
                0 <= k < s.store.peers.len() && (#[trigger] s.store.peers[k]).nodeid == nodeid;
            if taken {
                spawn_laws::refuses(r, s, IpcErrorCode::Internal)
            } else {
                let t = r.state.store;
                &&& r.events == seq![EventV::Done]
                &&& r.next is Done
                &&& r.state == daemon::with_store(s, t)
                &&& t == (StoreV { peers: t.peers, ..s.store })
                &&& !known ==> t.peers == s.store.peers.push(
                    PeerV { nodeid, name, added_at_ms: now_ms, last_seen_ms: None, addr_blob },
                )
                &&& known ==> t.peers.len() == s.store.peers.len()
                &&& known && 0 <= i < t.peers.len() ==> t.peers[i] == if s.store.peers[i].nodeid
                    == nodeid {
                    PeerV {
                        name,
                        addr_blob: if addr_blob is Some {
                            addr_blob
                        } else {
                            s.store.peers[i].addr_blob
                        },
                        ..s.store.peers[i]
                    }
                } else {
                    s.store.peers[i]
                }
            }
        }),
{
    let p = queries::peer_name_taken(nodeid, name);
    let q = queries::peer_selected(SelectorV::NodeId(nodeid));
    if table::any_of(s.store.peers, p) {
        let k = choose|k: int| 0 <= k < s.store.peers.len() && p(#[trigger] s.store.peers[k]);
        assert(s.store.peers[k].name == name);
    } else {
        assert forall|k: int| 0 <= k < s.store.peers.len() implies !((
        #[trigger] s.store.peers[k]).name == name && s.store.peers[k].nodeid != nodeid) by {
            assert(!p(s.store.peers[k]));
        }
        if table::any_of(s.store.peers, q) {
            let k = choose|k: int| 0 <= k < s.store.peers.len() && q(#[trigger] s.store.peers[k]);
            assert(s.store.peers[k].nodeid == nodeid);
        } else {
            assert forall|k: int| 0 <= k < s.store.peers.len() implies (
            #[trigger] s.store.peers[k]).nodeid != nodeid by {
                assert(!q(s.store.peers[k]));
            }
        }
    }
}

/// Whether a peer is the one that is selected.
pub open spec fn is_selected(p: PeerV, sel: SelectorV) -> bool {
    match sel {
        SelectorV::Name(n) => p.name == n,
        SelectorV::NodeId(n) => p.nodeid == n,
    }
}

/// Removing a peer leaves every other peer and takes the one that is selected; where none is selected
/// it is not found.
pub proof fn law_peer_is_removed(s: DaemonV, sel: SelectorV, p: PeerV)
    ensures
        ({
            let r = daemon::peer_rm_reply(s, sel);
            let there = exists|k: int|
                0 <= k < s.store.peers.len() && is_selected(#[trigger] s.store.peers[k], sel);
            if there {
                let t = r.state.store;
                &&& r.events == seq![EventV::Done]
                &&& r.next is Done
                &&& r.state == daemon::with_store(s, t)
                &&& t == (StoreV { peers: t.peers, ..s.store })
                &&& t.peers.contains(p) <==> s.store.peers.contains(p) && !is_selected(p, sel)
            } else {
                spawn_laws::refuses(r, s, IpcErrorCode::NotFound)
            }
        }),
{
    let q = queries::peer_selected(sel);
    let keep = |a: PeerV| !q(a);
    table::lemma_filter_contains(s.store.peers, keep, p);
    if table::any_of(s.store.peers, q) {
        let k = choose|k: int| 0 <= k < s.store.peers.len() && q(#[trigger] s.store.peers[k]);
        assert(is_selected(s.store.peers[k], sel));
    } else {
        assert forall|k: int| 0 <= k < s.store.peers.len() implies !is_selected(
            #[trigger] s.store.peers[k],
            sel,
        ) by {
            assert(!q(s.store.peers[k]));
        }
    }
}

/// Whether there is a link to a node.
pub open spec fn linked(links: Seq<LinkV>, nodeid: Seq<u8>) -> bool {
    exists|k: int| 0 <= k < links.len() && (#[trigger] links[k]).nodeid == nodeid
}

/// Whether a listed peer is a known one, told as it is recorded: as connected, with the number of its
/// streams, where there is a link to it; else as idle where it was ever seen, and as offline where not.
pub open spec fn tells_known(i: PeerInfoV, p: PeerV, links: Seq<LinkV>) -> bool {
    &&& i.nodeid == p.nodeid
    &&& i.name == p.name
    &&& i.source is Manual
    &&& i.last_seen_ms == p.last_seen_ms
    &&& i.state is Connected == linked(links, p.nodeid)
    &&& i.state matches PeerState::Connected { open_streams } ==> exists|k: int|
        0 <= k < links.len() && (#[trigger] links[k]).nodeid == p.nodeid && open_streams
            == links[k].stream_labels.len() as u32
    &&& !linked(links, p.nodeid) ==> i.state is Idle == p.last_seen_ms is Some
    &&& !linked(links, p.nodeid) ==> i.state is Offline == p.last_seen_ms is None
}

/// Whether a listed peer is one that is only seen on the local network.
pub open spec fn tells_lan(i: PeerInfoV, l: LanV) -> bool {
    &&& i.nodeid == l.nodeid
    &&& i.name == l.instance
    &&& i.source is Mdns
    &&& i.state is Idle
    &&& i.last_seen_ms == Some(l.last_seen_ms)
}

/// Whether a filter lets known peers through.
pub open spec fn shows_known(f: PeerFilter, p: PeerV, links: Seq<LinkV>) -> bool {
    match f {
        PeerFilter::All => true,
        PeerFilter::Remote => true,
        PeerFilter::Local => false,
        PeerFilter::Connected => linked(links, p.nodeid),
    }
}

/// Whether an event lists a known peer.
pub open spec fn lists_known(e: EventV, p: PeerV, links: Seq<LinkV>) -> bool {
    e matches EventV::PeerListItem(i) && tells_known(i, p, links)
}

/// Whether an event lists a peer that is only seen on the local network.
pub open spec fn lists_lan(e: EventV, l: LanV) -> bool {
    e matches EventV::PeerListItem(i) && tells_lan(i, l)
}

/// Whether a node is in the registry.
pub open spec fn registered(s: StoreV, nodeid: Seq<u8>) -> bool {
    exists|k: int| 0 <= k < s.peers.len() && (#[trigger] s.peers[k]).nodeid == nodeid
}

/// A listing of peers shows the known peers that its filter lets through, and the nodes that are only
/// seen on the local network where it is for all or for those, each as it is; and nothing else.
pub proof fn law_peers_are_listed(s: DaemonV, f: PeerFilter, p: PeerV, l: LanV, i: int)
    ensures
        ({
            let r = daemon::peer_list_reply(s, f);
            let n = r.events.len() - 1;
            &&& r.state == s && r.next is Done
            &&& n >= 0 && r.events[n] is PeerListEnd
            &&& s.store.peers.contains(p) && shows_known(f, p, s.conns) ==> exists|k: int|
                0 <= k < n && #[trigger] lists_known(r.events[k], p, s.conns)
            &&& s.lan.contains(l) && !registered(s.store, l.nodeid) && (f is All || f is Local)
                ==> exists|k: int| 0 <= k < n && #[trigger] lists_lan(r.events[k], l)
            &&& 0 <= i < n ==> {
                ||| exists|q: PeerV| #[trigger]
                    s.store.peers.contains(q) && shows_known(f, q, s.conns) && lists_known(
                        r.events[i],
                        q,
                        s.conns,
                    )
                ||| exists|m: LanV| #[trigger]
                    s.lan.contains(m) && !registered(s.store, m.nodeid) && (f is All || f is Local)
                        && lists_lan(r.events[i], m)
            }
        }),
{
    let r = daemon::peer_list_reply(s, f);
    let le = queries::peers_by_name();
    let rows = table::stable_order(s.store.peers, le);
    let tell = |q: PeerV| daemon::known_info(q, s.conns);
    let infos = rows.map_values(tell);
    let ok = |x: PeerInfoV| daemon::filter_ok(f, x);
    let shown = infos.filter(ok);
    let known = daemon::known_items(s, f);
    let lan = daemon::lan_items(s, f);
    assert(known == shown.map_values(|x: PeerInfoV| EventV::PeerListItem(x)));
    table::lemma_stable_order_members(s.store.peers, le, p);
    lemma_known(p, s.conns, f);
    if rows.contains(p) && shows_known(f, p, s.conns) {
        let a = choose|a: int| 0 <= a < rows.len() && rows[a] == p;
        assert(infos[a] == tell(p));
        assert(infos.contains(tell(p)));
        table::lemma_filter_contains(infos, ok, tell(p));
        let k = choose|k: int| 0 <= k < shown.len() && shown[k] == tell(p);
        assert(known[k] == EventV::PeerListItem(tell(p)));
        assert(r.events[k] == known[k]);
        assert(lists_known(r.events[k], p, s.conns));
    }
    let only = daemon::lan_only(s);
    let seen = s.lan.filter(only);
    if f is All || f is Local {
        lemma_registered(s, l.nodeid);
        table::lemma_filter_contains(s.lan, only, l);
        if seen.contains(l) {
            let k = choose|k: int| 0 <= k < seen.len() && seen[k] == l;
            assert(lan[k] == EventV::PeerListItem(daemon::lan_info(l)));
            assert(r.events[known.len() + k] == lan[k]);
            assert(lists_lan(r.events[known.len() + k], l));
        }
    }
    let n = r.events.len() - 1;
    if 0 <= i < known.len() {
        assert(r.events[i] == known[i]);
        assert(shown.contains(shown[i]));
        table::lemma_filter_contains(infos, ok, shown[i]);
        let a = choose|a: int| 0 <= a < infos.len() && infos[a] == shown[i];
        let q = rows[a];
        assert(rows.contains(q));
        table::lemma_stable_order_members(s.store.peers, le, q);
        lemma_known(q, s.conns, f);
        assert(s.store.peers.contains(q));
        assert(lists_known(r.events[i], q, s.conns));
    } else if 0 <= i < n {
        let k = i - known.len();
        assert(r.events[i] == lan[k]);
        let m = seen[k];
        assert(seen.contains(m));
        table::lemma_filter_contains(s.lan, only, m);
        lemma_registered(s, m.nodeid);
        assert(s.lan.contains(m));
        assert(lists_lan(r.events[i], m));
    }
}

proof fn lemma_registered(s: DaemonV, nodeid: Seq<u8>)
    ensures
        registered(s.store, nodeid) == table::any_of(
            s.store.peers,
            queries::peer_selected(SelectorV::NodeId(nodeid)),
        ),
{
    let q = queries::peer_selected(SelectorV::NodeId(nodeid));
    if registered(s.store, nodeid) {
        let k = choose|k: int|
            0 <= k < s.store.peers.len() && (#[trigger] s.store.peers[k]).nodeid == nodeid;
        assert(q(s.store.peers[k]));
    }
    if table::any_of(s.store.peers, q) {
        let k = choose|k: int| 0 <= k < s.store.peers.len() && q(#[trigger] s.store.peers[k]);
        assert(s.store.peers[k].nodeid == nodeid);
    }
}

proof fn lemma_known(p: PeerV, links: Seq<LinkV>, f: PeerFilter)
    ensures
        tells_known(daemon::known_info(p, links), p, links),
        daemon::filter_ok(f, daemon::known_info(p, links)) == shows_known(f, p, links),
{
    let q = conns::link_to(p.nodeid);
    table::lemma_first_of_is_there(links, q);
    table::lemma_filter_empty(links, q);
    if let Some(l) = table::first_of(links, q) {
        let k = choose|k: int| 0 <= k < links.len() && links[k] == l;
        assert(links[k].nodeid == p.nodeid);
    } else {
        assert forall|k: int| 0 <= k < links.len() implies (#[trigger] links[k]).nodeid
            != p.nodeid by {
            assert(!q(links[k]));
        }
    }
}

// ----- who the install is -----

/// The install tells its own identifier, and the version that it is, and nothing changes.
pub proof fn law_install_tells_who_it_is(s: DaemonV, at: MomentV)
    ensures
        ({
            let r = dispatch::handled(s, IpcRequest::Status, at);
            &&& r.state == s && r.next is Done && r.events.len() == 1
            &&& r.events[0] matches EventV::StatusInfo { nodeid, version, endpoint_bound } && nodeid
                == crypto::ed25519_public(s.secret) && version == s.version && endpoint_bound
        }),
        ({
            let r = dispatch::handled(s, IpcRequest::NodeId, at);
            &&& r.state == s && r.next is Done
            &&& r.events == seq![EventV::NodeIdValue(crypto::ed25519_public(s.secret))]
        }),
{
}

/// A listing of connections shows every link once, as it is.
pub proof fn law_links_are_listed(s: DaemonV, i: int)
    ensures
        ({
            let r = daemon::conn_list_reply(s);
            let n = s.conns.len() as int;
            &&& r.state == s && r.next is Done
            &&& r.events.len() == n + 1
            &&& r.events[n] is ConnListEnd
            &&& 0 <= i < n ==> (r.events[i] matches EventV::ConnListItem(c) && c.peer_name
                == s.conns[i].name && c.nodeid == s.conns[i].nodeid && c.since_ms
                == s.conns[i].since_ms && c.streams == s.conns[i].stream_labels && c.via_relay
                == s.conns[i].via_relay && c.rx_bytes == 0 && c.tx_bytes == 0 && c.rtt_us is None)
        }),
{
}

/// A peer whose stream is not accepted is told that it is not authorized, and why.
pub proof fn law_rejection_says_why(e: AuthError)
    ensures
        peering::rejected(e) matches EventV::Failed(f) && f.code is Unauthorized && f.message
            == "auth: "@ + auth::auth_error_text(e),
{
}

/// What comes on a stream is shown as it came, under the node and the name that it came from.
pub proof fn law_arrivals_are_shown_whole(
    remote: Seq<u8>,
    from_name: Option<Seq<char>>,
    channel: Seq<char>,
    frame: MessageFrame,
)
    ensures
        peering::shown_as(remote, from_name, channel, frame) == (EventV::RecvMsg {
            from: remote,
            from_name,
            channel,
            payload: frame.payload@,
            ts_ms: frame.ts_ms,
        }),
{
}

/// The peers that something waits for are those, each of them once.
pub proof fn law_waiting_peers_are_known(s: StoreV, peer: Seq<u8>, i: int, j: int)
    ensures
        store::pending_peers(s).contains(peer) <==> exists|m: MessageV| #[trigger]
            s.messages.contains(m) && m.direction is Out && m.delivered_at_ms is None
                && m.peer_nodeid == peer,
        0 <= i < j < store::pending_peers(s).len() ==> store::pending_peers(s)[i]
            != store::pending_peers(s)[j],
{
    let p = queries::message_pending();
    let rows = s.messages.filter(p);
    let ids = rows.map_values(|m: MessageV| m.peer_nodeid);
    lemma_distinct(ids, peer, i, j);
    if ids.contains(peer) {
        let k = choose|k: int| 0 <= k < ids.len() && ids[k] == peer;
        assert(rows.contains(rows[k]));
        table::lemma_filter_contains(s.messages, p, rows[k]);
        assert(s.messages.contains(rows[k]));
    }
    if exists|m: MessageV| #[trigger]
        s.messages.contains(m) && m.direction is Out && m.delivered_at_ms is None && m.peer_nodeid
            == peer {
        let m = choose|m: MessageV| #[trigger]
            s.messages.contains(m) && m.direction is Out && m.delivered_at_ms is None
                && m.peer_nodeid == peer;
        table::lemma_filter_contains(s.messages, p, m);
        let k = choose|k: int| 0 <= k < rows.len() && rows[k] == m;
        assert(ids[k] == peer);
    }
}

proof fn lemma_distinct(ids: Seq<Seq<u8>>, id: Seq<u8>, i: int, j: int)
    ensures
        store::distinct(ids).contains(id) <==> ids.contains(id),
        0 <= i < j < store::distinct(ids).len() ==> store::distinct(ids)[i] != store::distinct(
            ids,
        )[j],
    decreases ids.len(),
{
    if ids.len() > 0 {
        let rest = ids.drop_last();
        let d = store::distinct(rest);
        lemma_distinct(rest, id, i, j);
        lemma_distinct(rest, ids.last(), i, j);
        if ids.contains(id) {
            let k = choose|k: int| 0 <= k < ids.len() && ids[k] == id;
            if k < rest.len() {
                assert(rest[k] == id);
            }
        }
        if rest.contains(id) {
            let k = choose|k: int| 0 <= k < rest.len() && rest[k] == id;
            assert(ids[k] == id);
        }
        assert(ids[ids.len() - 1] == ids.last());
        if !d.contains(ids.last()) {
            let e = d.push(ids.last());
            if d.contains(id) {
                let k = choose|k: int| 0 <= k < d.len() && d[k] == id;
                assert(e[k] == id);
            }
            assert(e[d.len() as int] == ids.last());
            if e.contains(id) {
                let k = choose|k: int| 0 <= k < e.len() && e[k] == id;
                if k < d.len() {
                    assert(d[k] == id);
                }
            }
            if 0 <= i < j && j == d.len() {
                assert(d.contains(d[i]));
            }
        }
    }
}

} // verus!
