//! What the store's queries find, told of the rows themselves.

use vstd::prelude::*;

use crate::auth;
use crate::bus;
use crate::bus::BusEventV;
use crate::crypto;
use crate::ipc::AgentMsgKind;
use crate::ipc::SelectorV;
use crate::queries;
use crate::rows::AgentV;
use crate::rows::BusV;
use crate::rows::MessageV;
use crate::rows::PeerV;
use crate::rows::SessionV;
use crate::rows::TokenV;
use crate::store;
use crate::store::StoreV;
use crate::store_laws;
use crate::table;
use crate::text;

verus! {

// ----- finding one row -----

proof fn lemma_found<A>(s: Seq<A>, p: spec_fn(A) -> bool)
    ensures
        table::first_of(s, p) matches Some(a) ==> s.contains(a) && p(a),
        table::first_of(s, p) is None ==> forall|i: int| 0 <= i < s.len() ==> !p(#[trigger] s[i]),
{
    table::lemma_first_of_is_there(s, p);
    table::lemma_filter_empty(s, p);
}

/// A peer that is found by its name has that name, one that is found by its identifier has that
/// identifier, and where none is found there is none.
pub proof fn law_peer_is_found(s: StoreV, name: Seq<char>, nodeid: Seq<u8>)
    ensures
        match store::peer_of(s, SelectorV::Name(name)) {
            Some(p) => s.peers.contains(p) && p.name == name,
            None => forall|i: int| 0 <= i < s.peers.len() ==> (#[trigger] s.peers[i]).name != name,
        },
        match store::peer_of(s, SelectorV::NodeId(nodeid)) {
            Some(p) => s.peers.contains(p) && p.nodeid == nodeid,
            None => forall|i: int|
                0 <= i < s.peers.len() ==> (#[trigger] s.peers[i]).nodeid != nodeid,
        },
        auth::peer_known(s, nodeid) <==> exists|i: int|
            0 <= i < s.peers.len() && (#[trigger] s.peers[i]).nodeid == nodeid,
{
    lemma_found(s.peers, queries::peer_selected(SelectorV::Name(name)));
    lemma_found(s.peers, queries::peer_selected(SelectorV::NodeId(nodeid)));
    if let Some(p) = store::peer_of(s, SelectorV::NodeId(nodeid)) {
        let i = choose|i: int| 0 <= i < s.peers.len() && s.peers[i] == p;
        assert(s.peers[i].nodeid == nodeid);
    }
}

/// An agent that is found by its group and name is of that group and name, and a bearer token finds
/// the agent that was registered with the digest of that token, white space around it left out.
pub proof fn law_agent_is_found(
    s: crate::daemon::DaemonV,
    group: Seq<char>,
    name: Seq<char>,
    token: Seq<char>,
)
    ensures
        match store::agent_of(s.store, group, name) {
            Some(a) => s.store.agents.contains(a) && a.group_name == group && a.name == name,
            None => forall|i: int|
                0 <= i < s.store.agents.len() ==> !((#[trigger] s.store.agents[i]).group_name
                    == group && s.store.agents[i].name == name),
        },
        match crate::agents::bearer(s, token) {
            Some(a) => s.store.agents.contains(a) && a.token_hash == crypto::blake3_digest(
                text::utf8(text::trimmed(token)),
            ),
            None => forall|i: int|
                0 <= i < s.store.agents.len() ==> (#[trigger] s.store.agents[i]).token_hash
                    != crypto::blake3_digest(text::utf8(text::trimmed(token))),
        },
{
    lemma_found(s.store.agents, queries::agent_named(group, name));
    lemma_found(s.store.agents, queries::agent_with_token(auth::token_digest(token)));
}

/// A session that is found is of the group and name that are asked for, and one that is not found is
/// not there.
pub proof fn law_session_is_found(s: StoreV, group: Seq<char>, name: Seq<char>)
    ensures
        match store::session_of(s, group, name) {
            Some(x) => s.sessions.contains(x) && x.group_name == group && x.name == name,
            None => forall|i: int|
                0 <= i < s.sessions.len() ==> !((#[trigger] s.sessions[i]).group_name == group
                    && s.sessions[i].name == name),
        },
{
    lemma_found(s.sessions, queries::session_named(group, name));
}

/// A token counts as revoked exactly where a row of its identifier says so.
pub proof fn law_revoked_token_is_known(s: StoreV, id: Seq<u8>)
    requires
        store_laws::wf(s),
    ensures
        match store::token_of(s, id) {
            Some(t) => s.tokens.contains(t) && t.id == id,
            None => forall|i: int| 0 <= i < s.tokens.len() ==> (#[trigger] s.tokens[i]).id != id,
        },
        auth::known_revoked(s, id) <==> exists|i: int|
            0 <= i < s.tokens.len() && (#[trigger] s.tokens[i]).id == id && s.tokens[i].revoked,
{
    lemma_found(s.tokens, queries::token_with_id(id));
    if let Some(t) = store::token_of(s, id) {
        let k = choose|k: int| 0 <= k < s.tokens.len() && s.tokens[k] == t;
        assert forall|i: int|
            0 <= i < s.tokens.len() && (#[trigger] s.tokens[i]).id == id implies s.tokens[i]
            == t by {
            if i < k {
                assert((store_laws::token_key())(s.tokens[i]) != (store_laws::token_key())(
                    s.tokens[k],
                ));
            } else if k < i {
                assert((store_laws::token_key())(s.tokens[k]) != (store_laws::token_key())(
                    s.tokens[i],
                ));
            }
        }
        assert(s.tokens[k].id == id);
    }
}

// ----- finding many rows, in order -----

proof fn lemma_query<A>(s: Seq<A>, p: spec_fn(A) -> bool, le: spec_fn(A, A) -> bool, a: A)
    requires
        table::is_total_preorder(le),
    ensures
        table::stable_order(s.filter(p), le).contains(a) == (s.contains(a) && p(a)),
        table::is_ordered(table::stable_order(s.filter(p), le), le),
        table::stable_order(s.filter(p), le).len() == s.filter(p).len(),
{
    table::lemma_filter_contains(s, p, a);
    table::lemma_stable_order_members(s.filter(p), le, a);
    table::law_stable_order(s.filter(p), le);
}

/// The backlog of an agent holds exactly the messages to it in its group: of one session where one is
/// asked for, after a moment where one is given, and unread where only those are wanted. They come
/// in the order of their time, and of one moment in that of their sequence numbers.
pub proof fn law_backlog_holds(
    s: StoreV,
    group: Seq<char>,
    to: Seq<char>,
    session: Option<Seq<char>>,
    after_ms: Option<u64>,
    unread: bool,
    m: BusV,
    i: int,
    j: int,
)
    ensures
        ({
            let b = store::backlog(s, group, to, session, after_ms, unread);
            &&& b.contains(m) <==> {
                &&& s.bus.contains(m)
                &&& m.group_name == group
                &&& m.to_agent == to
                &&& session is Some ==> m.session_name == session->0
                &&& after_ms is Some ==> m.enqueued_at_ms > after_ms->0
                &&& unread ==> m.consumed_at_ms is None
            }
            &&& 0 <= i < j < b.len() ==> {
                ||| b[i].enqueued_at_ms < b[j].enqueued_at_ms
                ||| b[i].enqueued_at_ms == b[j].enqueued_at_ms && b[i].seq <= b[j].seq
            }
        }),
{
    let p = queries::bus_backlog(group, to, session, after_ms, unread);
    let le = queries::bus_by_time();
    lemma_query(s.bus, p, le, m);
    let b = store::backlog(s, group, to, session, after_ms, unread);
    if 0 <= i < j < b.len() {
        assert(le(b[i], b[j]));
    }
}

/// The unread messages of a kind to an agent are exactly those, by their sequence numbers.
pub proof fn law_pending_kind_holds(
    s: StoreV,
    group: Seq<char>,
    to: Seq<char>,
    kind: Seq<char>,
    m: BusV,
    i: int,
    j: int,
)
    ensures
        ({
            let b = store::pending_kind(s, group, to, kind);
            &&& b.contains(m) <==> {
                &&& s.bus.contains(m)
                &&& m.group_name == group
                &&& m.to_agent == to
                &&& m.kind == kind
                &&& m.consumed_at_ms is None
            }
            &&& 0 <= i < j < b.len() ==> b[i].seq <= b[j].seq
        }),
{
    let p = queries::bus_pending(group, to, kind);
    let le = queries::bus_by_seq();
    lemma_query(s.bus, p, le, m);
    let b = store::pending_kind(s, group, to, kind);
    if 0 <= i < j < b.len() {
        assert(le(b[i], b[j]));
    }
}

/// The transcript of a session comes by its sequence numbers; a group's feed holds exactly what was
/// said in the group after a moment, by its time.
pub proof fn law_transcripts_hold(
    s: StoreV,
    group: Seq<char>,
    session: Seq<char>,
    after_seq: u64,
    after_ms: u64,
    m: BusV,
    i: int,
    j: int,
)
    ensures
        ({
            let log = store::session_log(s, group, session, after_seq);
            let feed = store::group_feed(s, group, after_ms);
            &&& 0 <= i < j < log.len() ==> log[i].seq <= log[j].seq
            &&& feed.contains(m) <==> s.bus.contains(m) && m.group_name == group
                && m.enqueued_at_ms > after_ms
            &&& 0 <= i < j < feed.len() ==> feed[i].enqueued_at_ms <= feed[j].enqueued_at_ms
            &&& 0 <= i < j < feed.len() && feed[i].enqueued_at_ms == feed[j].enqueued_at_ms
                && feed[i].session_name == feed[j].session_name ==> feed[i].seq <= feed[j].seq
        }),
{
    store_laws::law_bus_order(s, group, group, None, None, false, group, session, after_seq, after_ms);
    let feed = store::group_feed(s, group, after_ms);
    let log = store::session_log(s, group, session, after_seq);
    table::lemma_filter_contains(s.bus, queries::bus_feed(group, after_ms), m);
    table::lemma_stable_order_members(
        s.bus.filter(queries::bus_feed(group, after_ms)),
        queries::bus_interleaved(),
        m,
    );
    if 0 <= i < j < log.len() {
        assert((queries::bus_by_seq())(log[i], log[j]));
    }
    if 0 <= i < j < feed.len() {
        assert((queries::bus_interleaved())(feed[i], feed[j]));
    }
}

/// What came from peers and passes the filters that are given is exactly what the inbox holds, oldest
/// first.
pub proof fn law_inbox_holds(
    s: StoreV,
    peer: Option<Seq<u8>>,
    channel: Option<Seq<char>>,
    after_ms: Option<u64>,
    m: MessageV,
    i: int,
    j: int,
)
    ensures
        ({
            let b = store::inbox(s, peer, channel, after_ms);
            &&& b.contains(m) <==> {
                &&& s.messages.contains(m)
                &&& m.direction is In
                &&& peer is Some ==> m.peer_nodeid == peer->0
                &&& channel is Some ==> m.channel == channel->0
                &&& after_ms is Some ==> m.enqueued_at_ms > after_ms->0
            }
            &&& 0 <= i < j < b.len() ==> b[i].enqueued_at_ms <= b[j].enqueued_at_ms
        }),
{
    let p = queries::message_inbound(peer, channel, after_ms);
    let le = queries::messages_by_time();
    store_laws::lemma_messages_by_time();
    lemma_query(s.messages, p, le, m);
    let b = store::inbox(s, peer, channel, after_ms);
    if 0 <= i < j < b.len() {
        assert(le(b[i], b[j]));
    }
}

/// What waits for a peer is exactly what was sent to it and not delivered, oldest first; and exactly
/// the peers for whom something waits are tried, each once.
pub proof fn law_outbox_holds(s: StoreV, peer: Seq<u8>, m: MessageV, i: int, j: int)
    ensures
        ({
            let b = store::pending_for(s, peer);
            &&& b.contains(m) <==> {
                &&& s.messages.contains(m)
                &&& m.direction is Out
                &&& m.delivered_at_ms is None
                &&& m.peer_nodeid == peer
            }
            &&& 0 <= i < j < b.len() ==> b[i].enqueued_at_ms <= b[j].enqueued_at_ms
        }),
        store::pending_peers(s).contains(peer) <==> exists|k: int|
            {
                &&& 0 <= k < s.messages.len()
                &&& (#[trigger] s.messages[k]).direction is Out
                &&& s.messages[k].delivered_at_ms is None
                &&& s.messages[k].peer_nodeid == peer
            },
        0 <= i < j < store::pending_peers(s).len() ==> store::pending_peers(s)[i]
            != store::pending_peers(s)[j],
{
    let p = queries::message_pending_for(peer);
    let le = queries::messages_by_time();
    store_laws::lemma_messages_by_time();
    lemma_query(s.messages, p, le, m);
    let b = store::pending_for(s, peer);
    if 0 <= i < j < b.len() {
        assert(le(b[i], b[j]));
    }
    let q = queries::message_pending();
    let hits = s.messages.filter(q);
    let to = |x: MessageV| x.peer_nodeid;
    let ids = hits.map_values(to);
    lemma_distinct(ids, peer, i, j);
    if ids.contains(peer) {
        let n = choose|n: int| 0 <= n < ids.len() && ids[n] == peer;
        assert(hits.contains(hits[n]));
        table::lemma_filter_contains(s.messages, q, hits[n]);
        let k = choose|k: int| 0 <= k < s.messages.len() && s.messages[k] == hits[n];
        assert(s.messages[k].peer_nodeid == peer);
    }
    assert forall|k: int|
        0 <= k < s.messages.len() && (#[trigger] s.messages[k]).direction is Out
            && s.messages[k].delivered_at_ms is None && s.messages[k].peer_nodeid
            == peer implies ids.contains(peer) by {
        table::lemma_filter_contains(s.messages, q, s.messages[k]);
        assert(s.messages.contains(s.messages[k]));
        let n = choose|n: int| 0 <= n < hits.len() && hits[n] == s.messages[k];
        assert(ids[n] == peer);
    }
}

proof fn lemma_distinct<A>(s: Seq<A>, a: A, i: int, j: int)
    ensures
        store::distinct(s).contains(a) == s.contains(a),
        0 <= i < j < store::distinct(s).len() ==> store::distinct(s)[i] != store::distinct(s)[j],
    decreases s.len(),
{
    if s.len() > 0 {
        let front = s.drop_last();
        let rest = store::distinct(front);
        lemma_distinct(front, a, i, j);
        lemma_distinct(front, s.last(), i, j);
        if s.contains(a) {
            let k = choose|k: int| 0 <= k < s.len() && s[k] == a;
            if k < front.len() {
                assert(front[k] == a);
            }
        }
        if front.contains(a) {
            let k = choose|k: int| 0 <= k < front.len() && front[k] == a;
            assert(s[k] == a);
        }
        assert(s[s.len() - 1] == s.last());
        let d = store::distinct(s);
        if !rest.contains(s.last()) {
            assert(d == rest.push(s.last()));
            assert(d[rest.len() as int] == s.last());
            if rest.contains(a) {
                let k = choose|k: int| 0 <= k < rest.len() && rest[k] == a;
                assert(d[k] == a);
            }
            if d.contains(a) && a != s.last() {
                let k = choose|k: int| 0 <= k < d.len() && d[k] == a;
                assert(rest[k] == a);
            }
            if 0 <= i < j < d.len() && j == rest.len() {
                assert(rest[i] != s.last());
            }
        }
    }
}

// ----- the bus -----

/// The name under which a kind of message is stored.
pub open spec fn stored_kind(k: AgentMsgKind) -> Seq<char> {
    match k {
        AgentMsgKind::TurnOutput => "turn_output"@,
        AgentMsgKind::TurnInput => "turn_input"@,
        AgentMsgKind::User => "user"@,
        AgentMsgKind::Control => "control"@,
        AgentMsgKind::Trace => "trace"@,
    }
}

/// Whether one message was said, and nothing else: it is the last on the bus, unread, and numbered
/// behind all others of its session; all others stay, but for those of its session that are too
/// old to be kept.
pub open spec fn said(s: StoreV, t: StoreV, m: BusV) -> bool {
    &&& t.bus.len() > 0
    &&& t.bus.last() == m
    &&& m.consumed_at_ms is None
    &&& forall|x: BusV| #[trigger] t.bus.contains(x) ==> x == m || s.bus.contains(x)
    &&& forall|x: BusV| #[trigger]
        s.bus.contains(x) ==> t.bus.contains(x) || (x.group_name == m.group_name && x.session_name
            == m.session_name && x.seq + s.retention <= m.seq)
    &&& forall|x: BusV| #[trigger]
        t.bus.contains(x) && x.group_name == m.group_name && x.session_name == m.session_name
            ==> x.seq + s.retention > m.seq
    &&& forall|x: BusV| #[trigger]
        s.bus.contains(x) && x.group_name == m.group_name && x.session_name == m.session_name
            ==> x.seq < m.seq
    &&& m.seq == 1 || exists|x: BusV| #[trigger]
        s.bus.contains(x) && x.group_name == m.group_name && x.session_name == m.session_name
            && x.seq == m.seq - 1
    &&& t.agents == s.agents
    &&& t.sessions == s.sessions
    &&& t.groups == s.groups
    &&& t.peers == s.peers
    &&& t.tokens == s.tokens
    &&& t.messages == s.messages
    &&& t.meta == s.meta
    &&& t.retention == s.retention
}

/// Whether a message is what one agent said to another in a session.
pub open spec fn is_message(
    m: BusV,
    group: Seq<char>,
    session: Seq<char>,
    from: Seq<char>,
    to: Seq<char>,
    kind: Seq<char>,
    payload: Seq<u8>,
    now_ms: u64,
) -> bool {
    &&& m.group_name == group
    &&& m.session_name == session
    &&& m.from_agent == from
    &&& m.to_agent == to
    &&& m.kind == kind
    &&& m.payload == payload
    &&& m.enqueued_at_ms == now_ms
}

/// Whether what is published is the message that was said.
pub open spec fn tells(e: BusEventV, m: BusV) -> bool {
    &&& e.group == m.group_name
    &&& e.session == m.session_name
    &&& e.from_agent == m.from_agent
    &&& e.to_agent == m.to_agent
    &&& stored_kind(e.kind) == m.kind
    &&& e.payload == m.payload
    &&& e.ts_ms == m.enqueued_at_ms
    &&& e.seq == m.seq
}

/// What is sent on the bus is said there once, as it was sent and behind all that was said in the
/// session before, and is published as it is stored. Where no number is left nothing changes and
/// nothing is published.
pub proof fn law_sent_is_said(
    s: StoreV,
    group: Seq<char>,
    session: Seq<char>,
    from: Seq<char>,
    to: Seq<char>,
    kind: AgentMsgKind,
    payload: Seq<u8>,
    now_ms: u64,
)
    requires
        s.retention > 0,
    ensures
        ({
            let t = bus::sent(s, group, session, from, to, kind, payload, now_ms);
            let told = bus::publication(s, group, session, from, to, kind, payload, now_ms);
            if bus::has_room(s, group, session) {
                &&& said(s, t, t.bus.last())
                &&& is_message(
                    t.bus.last(),
                    group,
                    session,
                    from,
                    to,
                    stored_kind(kind),
                    payload,
                    now_ms,
                )
                &&& told.len() == 1
                &&& tells(told[0], t.bus.last())
            } else {
                &&& t == s
                &&& told.len() == 0
            }
        }),
        bus::has_room(s, group, session) <==> !(exists|x: BusV| #[trigger]
            s.bus.contains(x) && x.group_name == group && x.session_name == session && x.seq
                == u64::MAX),
{
    let p = queries::bus_of_session(group, session);
    let n = queries::bus_seq();
    let last = store::last_bus_seq(s, group, session);
    lemma_highest_is_reached(s.bus, p, n);
    assert forall|x: BusV| #[trigger]
        s.bus.contains(x) && x.group_name == group && x.session_name == session implies x.seq
        <= last by {
        let i = choose|i: int| 0 <= i < s.bus.len() && s.bus[i] == x;
        table::lemma_highest(s.bus, p, n, i);
    }
    if bus::has_room(s, group, session) {
        let m = bus::row_for(s, group, session, from, to, kind, payload, now_ms);
        let t = bus::sent(s, group, session, from, to, kind, payload, now_ms);
        let gone = queries::bus_outlived(group, session, m.seq, s.retention);
        let keep = |a: BusV| !gone(a);
        let all = s.bus.push(m);
        reveal(Seq::filter);
        assert(all.drop_last() =~= s.bus);
        assert(keep(m));
        assert(t.bus == s.bus.filter(keep).push(m));
        assert(t.bus.last() == m);
        assert forall|x: BusV| #[trigger] t.bus.contains(x) implies x == m || s.bus.contains(x) by {
            let k = choose|k: int| 0 <= k < t.bus.len() && t.bus[k] == x;
            if k < s.bus.filter(keep).len() {
                assert(s.bus.filter(keep)[k] == x);
                assert(s.bus.filter(keep).contains(x));
                table::lemma_filter_contains(s.bus, keep, x);
            }
        }
        assert forall|x: BusV| #[trigger] s.bus.contains(x) implies t.bus.contains(x) || (
        x.group_name == m.group_name && x.session_name == m.session_name && x.seq + s.retention
            <= m.seq) by {
            table::lemma_filter_contains(s.bus, keep, x);
            if s.bus.filter(keep).contains(x) {
                let k = choose|k: int|
                    0 <= k < s.bus.filter(keep).len() && s.bus.filter(keep)[k] == x;
                assert(t.bus[k] == x);
            }
        }
        if m.seq != 1 {
            let i = choose|i: int| 0 <= i < s.bus.len() && p(#[trigger] s.bus[i]) && n(s.bus[i]) == last;
            assert(s.bus.contains(s.bus[i]));
        }
    } else {
        let i = choose|i: int| 0 <= i < s.bus.len() && p(#[trigger] s.bus[i]) && n(s.bus[i]) == last;
        assert(s.bus.contains(s.bus[i]));
    }
}

/// The highest number is that of an element, or zero.
pub proof fn lemma_highest_is_reached<A>(
    s: Seq<A>,
    p: spec_fn(A) -> bool,
    number: spec_fn(A) -> u64,
)
    ensures
        table::highest(s, p, number) == 0 || exists|i: int|
            0 <= i < s.len() && p(#[trigger] s[i]) && number(s[i]) == table::highest(s, p, number),
    decreases s.len(),
{
    if s.len() > 0 {
        let t = s.drop_last();
        lemma_highest_is_reached(t, p, number);
        let h = table::highest(s, p, number);
        if p(s.last()) && number(s.last()) > table::highest(t, p, number) {
            assert(s[s.len() - 1] == s.last());
            assert(p(s[s.len() - 1]) && number(s[s.len() - 1]) == h);
        } else if h != 0 {
            let i = choose|i: int| 0 <= i < t.len() && p(#[trigger] t[i]) && number(t[i]) == h;
            assert(s[i] == t[i]);
            assert(p(s[i]) && number(s[i]) == h);
        }
    }
}

/// Every kind of message is stored under its own name and shown again as that kind; what is stored
/// under no such name is shown as a free-form message.
pub proof fn law_kinds_are_kept(k: AgentMsgKind, name: Seq<char>)
    ensures
        bus::kind_name(k) == stored_kind(k),
        bus::kind_named(stored_kind(k)) == k,
        bus::kind_named(name) is User || name == stored_kind(bus::kind_named(name)),
{
    bus::law_kind_roundtrip(k);
}

// ----- changing rows -----

/// Whether the row of one agent got a status, a process where one is given, and a time at which it was
/// seen, and every other row of the table is as it was.
pub open spec fn agent_set(
    before: Seq<AgentV>,
    after: Seq<AgentV>,
    group: Seq<char>,
    name: Seq<char>,
    status: Seq<char>,
    pid: Option<i64>,
    now_ms: u64,
) -> bool {
    &&& after.len() == before.len()
    &&& forall|i: int|
        0 <= i < before.len() ==> if before[i].group_name == group && before[i].name == name {
            &&& (#[trigger] after[i]).status == status
            &&& after[i].pid == if pid is Some {
                pid
            } else {
                before[i].pid
            }
            &&& after[i].last_seen_ms == Some(now_ms)
            &&& after[i].group_name == group
            &&& after[i].name == name
            &&& after[i].token_hash == before[i].token_hash
            &&& after[i].role == before[i].role
            &&& after[i].dir == before[i].dir
            &&& after[i].created_at_ms == before[i].created_at_ms
        } else {
            after[i] == before[i]
        }
}

/// Setting an agent's status changes the row of that agent and nothing else; noting that it was seen
/// changes the time at which it was seen and nothing else.
pub proof fn law_status_is_set(
    s: StoreV,
    group: Seq<char>,
    name: Seq<char>,
    status: Seq<char>,
    pid: Option<i64>,
    now_ms: u64,
    i: int,
)
    ensures
        ({
            let t = store::status_set(s, group, name, status, pid, now_ms);
            &&& agent_set(s.agents, t.agents, group, name, status, pid, now_ms)
            &&& t == StoreV { agents: t.agents, ..s }
        }),
        ({
            let t = store::agent_touched(s, group, name, now_ms);
            &&& t == StoreV { agents: t.agents, ..s }
            &&& t.agents.len() == s.agents.len()
            &&& 0 <= i < s.agents.len() ==> t.agents[i] == if s.agents[i].group_name == group
                && s.agents[i].name == name {
                AgentV { last_seen_ms: Some(now_ms), ..s.agents[i] }
            } else {
                s.agents[i]
            }
        }),
{
}

/// Closing a session changes the status of that session and nothing else.
pub proof fn law_session_is_closed(s: StoreV, group: Seq<char>, name: Seq<char>, i: int)
    ensures
        ({
            let t = store::session_closed(s, group, name);
            &&& t == StoreV { sessions: t.sessions, ..s }
            &&& t.sessions.len() == s.sessions.len()
            &&& 0 <= i < s.sessions.len() ==> t.sessions[i] == if s.sessions[i].group_name == group
                && s.sessions[i].name == name {
                SessionV { status: "closed"@, ..s.sessions[i] }
            } else {
                s.sessions[i]
            }
        }),
{
}

/// A message that was read is marked as read at that time, and no other message is.
pub proof fn law_reading_is_marked(
    s: StoreV,
    group: Seq<char>,
    session: Seq<char>,
    seq: u64,
    now_ms: u64,
    i: int,
)
    ensures
        ({
            let t = store::consumed(s, group, session, seq, now_ms);
            &&& t == StoreV { bus: t.bus, ..s }
            &&& t.bus.len() == s.bus.len()
            &&& 0 <= i < s.bus.len() ==> t.bus[i] == if s.bus[i].group_name == group
                && s.bus[i].session_name == session && s.bus[i].seq == seq {
                BusV { consumed_at_ms: Some(now_ms), ..s.bus[i] }
            } else {
                s.bus[i]
            }
        }),
{
}

/// A message that was delivered is marked as delivered at that time, and no other message is.
pub proof fn law_delivery_is_marked(
    s: StoreV,
    sender: Seq<u8>,
    channel_id: Seq<u8>,
    seq: u64,
    now_ms: u64,
    i: int,
)
    ensures
        ({
            let t = store::delivered(s, sender, channel_id, seq, now_ms);
            &&& t == StoreV { messages: t.messages, ..s }
            &&& t.messages.len() == s.messages.len()
            &&& 0 <= i < s.messages.len() ==> t.messages[i] == if s.messages[i].sender == sender
                && s.messages[i].channel_id == channel_id && s.messages[i].seq == seq
                && s.messages[i].direction is Out {
                MessageV { delivered_at_ms: Some(now_ms), ..s.messages[i] }
            } else {
                s.messages[i]
            }
        }),
{
}

/// What an earlier daemon left alive counts as exited and its sessions as closed, and nothing else
/// changes: neither what had ended nor any other field.
pub proof fn law_leftovers_are_ended(s: StoreV, i: int)
    ensures
        ({
            let t = store::reconciled(s);
            &&& t == StoreV { agents: t.agents, sessions: t.sessions, ..s }
            &&& t.agents.len() == s.agents.len()
            &&& t.sessions.len() == s.sessions.len()
            &&& 0 <= i < s.agents.len() ==> t.agents[i] == if s.agents[i].status == "starting"@
                || s.agents[i].status == "running"@ || s.agents[i].status == "awaiting_input"@ {
                AgentV { status: "exited"@, ..s.agents[i] }
            } else {
                s.agents[i]
            }
            &&& 0 <= i < s.sessions.len() ==> t.sessions[i] == if s.sessions[i].status == "active"@ {
                SessionV { status: "closed"@, ..s.sessions[i] }
            } else {
                s.sessions[i]
            }
        }),
{
}

/// A peer that was seen is noted as seen at that time, and nothing else changes.
pub proof fn law_peer_is_seen(s: StoreV, nodeid: Seq<u8>, now_ms: u64, i: int)
    ensures
        ({
            let t = store::peer_touched(s, nodeid, now_ms);
            &&& t == StoreV { peers: t.peers, ..s }
            &&& t.peers.len() == s.peers.len()
            &&& 0 <= i < s.peers.len() ==> t.peers[i] == if s.peers[i].nodeid == nodeid {
                PeerV { last_seen_ms: Some(now_ms), ..s.peers[i] }
            } else {
                s.peers[i]
            }
        }),
{
}

/// A token of a new identifier is kept as it is; of one that is known, only the bytes and the state of
/// revocation change. Revoking marks the token of the identifier and nothing else.
pub proof fn law_token_is_kept(s: StoreV, t: TokenV, id: Seq<u8>, i: int)
    ensures
        ({
            let u = store::token_inserted(s, t);
            let fresh = forall|k: int| 0 <= k < s.tokens.len() ==> (#[trigger] s.tokens[k]).id != t.id;
            &&& u == StoreV { tokens: u.tokens, ..s }
            &&& fresh ==> u.tokens == s.tokens.push(t)
            &&& !fresh ==> u.tokens.len() == s.tokens.len()
            &&& !fresh && 0 <= i < s.tokens.len() ==> u.tokens[i] == if s.tokens[i].id == t.id {
                TokenV { raw: t.raw, revoked: t.revoked, ..s.tokens[i] }
            } else {
                s.tokens[i]
            }
        }),
        ({
            let u = store::token_revoked(s, id);
            &&& u == StoreV { tokens: u.tokens, ..s }
            &&& u.tokens.len() == s.tokens.len()
            &&& 0 <= i < s.tokens.len() ==> u.tokens[i] == if s.tokens[i].id == id {
                TokenV { revoked: true, ..s.tokens[i] }
            } else {
                s.tokens[i]
            }
        }),
{
}

} // verus!
