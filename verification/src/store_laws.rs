//! What holds of the store whatever is done with it.

use vstd::prelude::*;

use crate::ipc::SelectorV;
use crate::queries;
use crate::rows::AgentV;
use crate::rows::BusV;
use crate::rows::GroupV;
use crate::rows::MessageV;
use crate::rows::MetaV;
use crate::rows::PeerV;
use crate::rows::SessionV;
use crate::rows::TokenV;
use crate::store;
use crate::store::StoreV;
use crate::table;
use crate::token::Cap;

verus! {

// ----- restarts -----

/// The steps of the schema run once: settings that are up to date stay as they are, whatever version
/// they came from.
pub proof fn law_schema_upgrade_is_idempotent(meta: Seq<MetaV>)
    ensures
        store::meta_upgraded(store::meta_upgraded(meta)) == store::meta_upgraded(meta),
        store::meta_upgraded(Seq::empty()) == seq![
            MetaV { key: "schema_version"@, value: seq![51u8] },
        ],
{
    let named = queries::meta_named("schema_version"@);
    let keep = |m: MetaV| !named(m);
    let row = MetaV { key: "schema_version"@, value: seq![51u8] };
    lemma_version_three();
    let rest = table::without(meta, named);
    let up = rest.push(row);
    assert forall|i: int| 0 <= i < rest.len() implies !named(#[trigger] up[i]) by {
        table::lemma_filter_contains(meta, keep, rest[i]);
        assert(rest.contains(rest[i]));
    }
    table::lemma_first_of(up, named, rest.len() as int);
    let none = Seq::<MetaV>::empty();
    table::lemma_filter_empty(none, named);
    table::lemma_filter_empty(none, keep);
    assert(table::without(none, named) =~= none);
    assert(none.push(row) =~= seq![row]);
}

proof fn lemma_version_three()
    ensures
        store::version_of(Some(seq![51u8])) == 3,
        store::version_of(None) == 0,
{
    let b = seq![51u8];
    assert(store::unsigned_part(b) == b);
    assert(b.drop_last() =~= Seq::empty());
    assert(store::ascii_value(b.drop_last()) == 0);
    assert(store::ascii_value(b) == 3);
}

/// Nothing is lost over a restart: a store whose settings are up to date is loaded as it was saved,
/// however often.
pub proof fn law_restart_keeps_everything(s: StoreV)
    requires
        store::meta_upgraded(s.meta) == s.meta,
    ensures
        store::reopened(s) == s,
        store::reopened(store::reopened(s)) == s,
{
}

// ----- the invariant -----

pub open spec fn peer_id_key() -> spec_fn(PeerV) -> Seq<u8> {
    |p: PeerV| p.nodeid
}

pub open spec fn peer_name_key() -> spec_fn(PeerV) -> Seq<char> {
    |p: PeerV| p.name
}

pub open spec fn token_key() -> spec_fn(TokenV) -> Seq<u8> {
    |t: TokenV| t.id
}

pub open spec fn message_key() -> spec_fn(MessageV) -> (Seq<u8>, Seq<u8>, u64) {
    |m: MessageV| (m.sender, m.channel_id, m.seq)
}

pub open spec fn group_key() -> spec_fn(GroupV) -> Seq<char> {
    |g: GroupV| g.name
}

pub open spec fn agent_key() -> spec_fn(AgentV) -> (Seq<char>, Seq<char>) {
    |a: AgentV| (a.group_name, a.name)
}

pub open spec fn agent_token_key() -> spec_fn(AgentV) -> Seq<u8> {
    |a: AgentV| a.token_hash
}

pub open spec fn session_key() -> spec_fn(SessionV) -> (Seq<char>, Seq<char>) {
    |s: SessionV| (s.group_name, s.name)
}

pub open spec fn bus_key() -> spec_fn(BusV) -> (Seq<char>, Seq<char>, u64) {
    |m: BusV| (m.group_name, m.session_name, m.seq)
}

/// Whether every message on the bus is among the last ones of its session that the retention limit
/// covers.
pub open spec fn bus_bounded(s: StoreV) -> bool {
    forall|i: int|
        0 <= i < s.bus.len() ==> (#[trigger] s.bus[i]).seq as int > store::last_bus_seq(
            s,
            s.bus[i].group_name,
            s.bus[i].session_name,
        ) - s.retention
}

/// The invariant of the store: keys are unique, and no session has more messages on the bus than
/// the retention limit allows.
pub open spec fn wf(s: StoreV) -> bool {
    &&& table::unique_by(s.peers, peer_id_key())
    &&& table::unique_by(s.peers, peer_name_key())
    &&& table::unique_by(s.tokens, token_key())
    &&& table::unique_by(s.messages, message_key())
    &&& table::unique_by(s.groups, group_key())
    &&& table::unique_by(s.agents, agent_key())
    &&& table::unique_by(s.agents, agent_token_key())
    &&& table::unique_by(s.sessions, session_key())
    &&& table::unique_by(s.bus, bus_key())
    &&& bus_bounded(s)
}

/// A new install satisfies the invariant.
pub proof fn law_empty_store_wf(retention: u64)
    ensures
        wf(store::empty_store(retention)),
{
}

/// Adding a peer keeps the invariant: no two peers share an identifier or a name.
pub proof fn law_peer_added_wf(
    s: StoreV,
    nodeid: Seq<u8>,
    name: Seq<char>,
    addr_blob: Option<Seq<u8>>,
    now_ms: u64,
)
    requires
        wf(s),
    ensures
        store::peer_added(s, nodeid, name, addr_blob, now_ms) matches Some(t) ==> wf(t),
{
    let known = queries::peer_selected(SelectorV::NodeId(nodeid));
    let taken = queries::peer_name_taken(nodeid, name);
    let f = queries::peer_renamed(name, addr_blob);
    if !table::any_of(s.peers, taken) {
        assert forall|i: int| 0 <= i < s.peers.len() implies !taken(#[trigger] s.peers[i]) by {}
        if table::any_of(s.peers, known) {
            let t = table::changed_where(s.peers, known, f);
            table::lemma_unique_changed(s.peers, peer_id_key(), known, f);
            assert forall|i: int, j: int| 0 <= i < j < t.len() implies (peer_name_key())(
                #[trigger] t[i],
            ) != (peer_name_key())(#[trigger] t[j]) by {
                assert(s.peers[i].nodeid != s.peers[j].nodeid) by {
                    assert((peer_id_key())(s.peers[i]) != (peer_id_key())(s.peers[j]));
                }
                assert((peer_name_key())(s.peers[i]) != (peer_name_key())(s.peers[j]));
                assert(!taken(s.peers[i]));
                assert(!taken(s.peers[j]));
            }
        } else {
            let p = PeerV { nodeid, name, added_at_ms: now_ms, last_seen_ms: None, addr_blob };
            assert forall|i: int| 0 <= i < s.peers.len() implies (peer_id_key())(
                #[trigger] s.peers[i],
            ) != (peer_id_key())(p) && (peer_name_key())(s.peers[i]) != (peer_name_key())(p) by {
                assert(!known(s.peers[i]));
                assert(!taken(s.peers[i]));
            }
            table::lemma_unique_push(s.peers, peer_id_key(), p);
            table::lemma_unique_push(s.peers, peer_name_key(), p);
        }
    }
}

/// Removing or touching a peer keeps the invariant.
pub proof fn law_peer_changes_wf(s: StoreV, sel: SelectorV, nodeid: Seq<u8>, now_ms: u64)
    requires
        wf(s),
    ensures
        wf(store::peer_removed(s, sel)),
        wf(store::peer_touched(s, nodeid, now_ms)),
{
    let gone = queries::peer_selected(sel);
    let keep = |a: PeerV| !gone(a);
    table::lemma_unique_filter(s.peers, peer_id_key(), keep);
    table::lemma_unique_filter(s.peers, peer_name_key(), keep);
    let p = queries::peer_selected(SelectorV::NodeId(nodeid));
    let f = queries::peer_seen(now_ms);
    table::lemma_unique_changed(s.peers, peer_id_key(), p, f);
    table::lemma_unique_changed(s.peers, peer_name_key(), p, f);
}

/// Entering and revoking tokens keeps the invariant.
pub proof fn law_token_changes_wf(s: StoreV, t: TokenV, id: Seq<u8>)
    requires
        wf(s),
    ensures
        wf(store::token_inserted(s, t)),
        wf(store::token_revoked(s, id)),
{
    let known = queries::token_with_id(t.id);
    if table::any_of(s.tokens, known) {
        table::lemma_unique_changed(
            s.tokens,
            token_key(),
            known,
            queries::token_replaced(t.raw, t.revoked),
        );
    } else {
        assert forall|i: int| 0 <= i < s.tokens.len() implies (token_key())(#[trigger] s.tokens[i])
            != (token_key())(t) by {
            assert(!known(s.tokens[i]));
        }
        table::lemma_unique_push(s.tokens, token_key(), t);
    }
    table::lemma_unique_changed(
        s.tokens,
        token_key(),
        queries::token_with_id(id),
        queries::token_revoked(),
    );
}

/// Enqueuing, recording and delivering messages keeps the invariant: no two messages share sender,
/// channel and sequence number.
pub proof fn law_message_changes_wf(
    s: StoreV,
    sender: Seq<u8>,
    peer: Seq<u8>,
    channel: Seq<char>,
    seq: u64,
    payload: Seq<u8>,
    ts_ms: u64,
    now_ms: u64,
)
    requires
        wf(s),
    ensures
        store::last_message_seq(s, sender, store::channel_key(channel)) < u64::MAX ==> wf(
            store::message_appended(
                s,
                store::next_outbound(s, sender, peer, channel, payload, now_ms),
            ),
        ),
        wf(store::recorded(s, sender, channel, seq, payload, ts_ms, now_ms)),
        wf(store::delivered(s, sender, store::channel_key(channel), seq, now_ms)),
{
    let cid = store::channel_key(channel);
    let m = store::next_outbound(s, sender, peer, channel, payload, now_ms);
    let on = queries::message_on_channel(sender, cid);
    if store::last_message_seq(s, sender, cid) < u64::MAX {
        assert forall|i: int| 0 <= i < s.messages.len() implies (message_key())(
            #[trigger] s.messages[i],
        ) != (message_key())(m) by {
            if on(s.messages[i]) {
                table::lemma_highest(s.messages, on, queries::message_seq(), i);
            }
        }
        table::lemma_unique_push(s.messages, message_key(), m);
    }
    let seen = queries::message_with_key(sender, cid, seq);
    if !table::any_of(s.messages, seen) {
        let r = store::recorded(s, sender, channel, seq, payload, ts_ms, now_ms).messages.last();
        assert forall|i: int| 0 <= i < s.messages.len() implies (message_key())(
            #[trigger] s.messages[i],
        ) != (message_key())(r) by {
            assert(!seen(s.messages[i]));
        }
        table::lemma_unique_push(s.messages, message_key(), r);
    }
    table::lemma_unique_changed(
        s.messages,
        message_key(),
        queries::outbound_with_key(sender, cid, seq),
        queries::message_delivered(now_ms),
    );
}

/// Creating a group keeps the invariant.
pub proof fn law_group_created_wf(s: StoreV, name: Seq<char>, now_ms: u64)
    requires
        wf(s),
    ensures
        wf(store::group_created(s, name, now_ms)),
{
    let named = queries::group_named(name);
    if !table::any_of(s.groups, named) {
        let g = GroupV { name, created_at_ms: now_ms };
        assert forall|i: int| 0 <= i < s.groups.len() implies (group_key())(#[trigger] s.groups[i])
            != (group_key())(g) by {
            assert(!named(s.groups[i]));
        }
        table::lemma_unique_push(s.groups, group_key(), g);
    }
}

/// Registering an agent keeps the invariant: a group has no two agents of a name, and no two agents
/// share a token.
pub proof fn law_agent_registered_wf(s: StoreV, a: AgentV)
    requires
        wf(s),
    ensures
        wf(store::agent_registered(s, a)),
{
    let way = queries::agent_in_the_way(a.group_name, a.name, a.token_hash);
    if !table::any_of(s.agents, way) {
        assert forall|i: int| 0 <= i < s.agents.len() implies (agent_key())(#[trigger] s.agents[i])
            != (agent_key())(a) && (agent_token_key())(s.agents[i]) != (agent_token_key())(a) by {
            assert(!way(s.agents[i]));
        }
        table::lemma_unique_push(s.agents, agent_key(), a);
        table::lemma_unique_push(s.agents, agent_token_key(), a);
    }
}

/// Changing an agent's status, touching it, and reconciling keep the invariant.
pub proof fn law_agent_changes_wf(
    s: StoreV,
    group: Seq<char>,
    name: Seq<char>,
    status: Seq<char>,
    pid: Option<i64>,
    now_ms: u64,
)
    requires
        wf(s),
    ensures
        wf(store::status_set(s, group, name, status, pid, now_ms)),
        wf(store::agent_touched(s, group, name, now_ms)),
        wf(store::reconciled(s)),
{
    let p = queries::agent_named(group, name);
    let f = queries::agent_with_status(status, pid, now_ms);
    table::lemma_unique_changed(s.agents, agent_key(), p, f);
    table::lemma_unique_changed(s.agents, agent_token_key(), p, f);
    let g = queries::agent_seen(now_ms);
    table::lemma_unique_changed(s.agents, agent_key(), p, g);
    table::lemma_unique_changed(s.agents, agent_token_key(), p, g);
    let live = queries::agent_live();
    let h = queries::agent_exited();
    table::lemma_unique_changed(s.agents, agent_key(), live, h);
    table::lemma_unique_changed(s.agents, agent_token_key(), live, h);
    table::lemma_unique_changed(
        s.sessions,
        session_key(),
        queries::session_active(),
        queries::session_shut(),
    );
}

/// Creating and closing sessions keeps the invariant.
pub proof fn law_session_changes_wf(s: StoreV, row: SessionV, group: Seq<char>, name: Seq<char>)
    requires
        wf(s),
    ensures
        wf(store::session_created(s, row)),
        wf(store::session_closed(s, group, name)),
{
    let named = queries::session_named(row.group_name, row.name);
    if !table::any_of(s.sessions, named) {
        assert forall|i: int| 0 <= i < s.sessions.len() implies (session_key())(
            #[trigger] s.sessions[i],
        ) != (session_key())(row) by {
            assert(!named(s.sessions[i]));
        }
        table::lemma_unique_push(s.sessions, session_key(), row);
    }
    table::lemma_unique_changed(
        s.sessions,
        session_key(),
        queries::session_named(group, name),
        queries::session_shut(),
    );
}

proof fn lemma_highest_filter(
    s: Seq<BusV>,
    p: spec_fn(BusV) -> bool,
    keep: spec_fn(BusV) -> bool,
    number: spec_fn(BusV) -> u64,
)
    ensures
        table::highest(s.filter(keep), p, number) <= table::highest(s, p, number),
    decreases s.len(),
{
    reveal(Seq::filter);
    if s.len() > 0 {
        lemma_highest_filter(s.drop_last(), p, keep, number);
        if keep(s.last()) {
            assert(s.filter(keep).drop_last() =~= s.drop_last().filter(keep));
        }
    }
}

proof fn lemma_highest_changed(
    s: Seq<BusV>,
    p: spec_fn(BusV) -> bool,
    hit: spec_fn(BusV) -> bool,
    f: spec_fn(BusV) -> BusV,
    number: spec_fn(BusV) -> u64,
)
    requires
        forall|a: BusV| p(#[trigger] f(a)) == p(a) && number(f(a)) == number(a),
    ensures
        table::highest(table::changed_where(s, hit, f), p, number) == table::highest(s, p, number),
    decreases s.len(),
{
    if s.len() > 0 {
        let t = table::changed_where(s, hit, f);
        assert(t.drop_last() =~= table::changed_where(s.drop_last(), hit, f));
        lemma_highest_changed(s.drop_last(), p, hit, f, number);
        let l = s.last();
        assert(p(f(l)) == p(l) && number(f(l)) == number(l));
    }
}

/// Sending on the bus keeps the invariant: sequence numbers are unique within a session, and no
/// session outgrows the retention limit.
pub proof fn law_bus_appended_wf(
    s: StoreV,
    group: Seq<char>,
    session: Seq<char>,
    from_agent: Seq<char>,
    to_agent: Seq<char>,
    kind: Seq<char>,
    payload: Seq<u8>,
    now_ms: u64,
)
    requires
        wf(s),
        store::last_bus_seq(s, group, session) < u64::MAX,
    ensures
        wf(
            store::bus_appended(
                s,
                store::next_bus(s, group, session, from_agent, to_agent, kind, payload, now_ms),
            ),
        ),
{
    let m = store::next_bus(s, group, session, from_agent, to_agent, kind, payload, now_ms);
    let of = queries::bus_of_session(group, session);
    let seq = queries::bus_seq();
    assert forall|i: int| 0 <= i < s.bus.len() implies (bus_key())(#[trigger] s.bus[i])
        != (bus_key())(m) by {
        if of(s.bus[i]) {
            table::lemma_highest(s.bus, of, seq, i);
        }
    }
    table::lemma_unique_push(s.bus, bus_key(), m);
    let all = s.bus.push(m);
    let gone = queries::bus_outlived(group, session, m.seq, s.retention);
    let keep = |a: BusV| !gone(a);
    table::lemma_unique_filter(all, bus_key(), keep);
    let t = store::bus_appended(s, m);
    assert(t.bus == all.filter(keep));
    assert forall|i: int| 0 <= i < t.bus.len() implies (#[trigger] t.bus[i]).seq as int
        > store::last_bus_seq(t, t.bus[i].group_name, t.bus[i].session_name) - t.retention by {
        let x = t.bus[i];
        table::lemma_filter_contains(all, keep, x);
        assert(t.bus.contains(x));
        assert(!gone(x));
        let ofx = queries::bus_of_session(x.group_name, x.session_name);
        lemma_highest_filter(all, ofx, keep, seq);
        assert(all.drop_last() =~= s.bus);
        assert(table::highest(all, ofx, seq) == if ofx(m) && m.seq > table::highest(
            s.bus,
            ofx,
            seq,
        ) {
            m.seq
        } else {
            table::highest(s.bus, ofx, seq)
        });
        if x.group_name == group && x.session_name == session {
            assert(ofx == of);
        } else {
            let k = choose|k: int| 0 <= k < all.len() && all[k] == x;
            assert(k < s.bus.len());
            assert(s.bus[k] == x);
        }
    }
}

/// Reading a message on the bus keeps the invariant.
pub proof fn law_consumed_wf(s: StoreV, group: Seq<char>, session: Seq<char>, seq: u64, now_ms: u64)
    requires
        wf(s),
    ensures
        wf(store::consumed(s, group, session, seq, now_ms)),
{
    let hit = queries::bus_with_key(group, session, seq);
    let f = queries::bus_consumed(now_ms);
    table::lemma_unique_changed(s.bus, bus_key(), hit, f);
    let t = store::consumed(s, group, session, seq, now_ms);
    assert forall|i: int| 0 <= i < t.bus.len() implies (#[trigger] t.bus[i]).seq as int
        > store::last_bus_seq(t, t.bus[i].group_name, t.bus[i].session_name) - t.retention by {
        let of = queries::bus_of_session(t.bus[i].group_name, t.bus[i].session_name);
        lemma_highest_changed(s.bus, of, hit, f, queries::bus_seq());
        assert(s.bus[i].seq == t.bus[i].seq);
    }
}

// ----- the retention limit -----

proof fn lemma_seqs_len(s: Seq<BusV>, lo: int, hi: int)
    requires
        forall|i: int, j: int| 0 <= i < j < s.len() ==> (#[trigger] s[i]).seq != (#[trigger] s[j]).seq,
        forall|i: int| 0 <= i < s.len() ==> lo < (#[trigger] s[i]).seq <= hi,
        lo <= hi,
    ensures
        s.len() <= hi - lo,
{
    let seqs = Seq::new(s.len(), |i: int| s[i].seq as int);
    assert(seqs.no_duplicates());
    seqs.unique_seq_to_set();
    let range = vstd::set_lib::set_int_range(lo + 1, hi + 1);
    vstd::set_lib::lemma_int_range(lo + 1, hi + 1);
    assert(seqs.to_set().subset_of(range));
    vstd::set_lib::lemma_len_subset(seqs.to_set(), range);
}

/// No session has more messages on the bus than the retention limit.
pub proof fn law_bus_retention(s: StoreV, group: Seq<char>, session: Seq<char>)
    requires
        wf(s),
    ensures
        s.bus.filter(queries::bus_of_session(group, session)).len() <= s.retention,
{
    let of = queries::bus_of_session(group, session);
    let t = s.bus.filter(of);
    table::lemma_unique_filter(s.bus, bus_key(), of);
    let hi = store::last_bus_seq(s, group, session) as int;
    let lo = hi - s.retention;
    assert forall|i: int| 0 <= i < t.len() implies lo < (#[trigger] t[i]).seq <= hi && of(t[i]) by {
        table::lemma_filter_contains(s.bus, of, t[i]);
        assert(t.contains(t[i]));
        let k = choose|k: int| 0 <= k < s.bus.len() && s.bus[k] == t[i];
        table::lemma_highest(s.bus, of, queries::bus_seq(), k);
        assert(s.bus[k].seq as int > lo);
    }
    assert forall|i: int, j: int| 0 <= i < j < t.len() implies (#[trigger] t[i]).seq != (
    #[trigger] t[j]).seq by {
        assert((bus_key())(t[i]) != (bus_key())(t[j]));
    }
    lemma_seqs_len(t, lo, hi);
}

// ----- peers -----

/// A peer that is added again without an address keeps the one it had, and is found under its new
/// name only.
pub proof fn law_peer_update_keeps_address(
    s: StoreV,
    nodeid: Seq<u8>,
    name: Seq<char>,
    now_ms: u64,
)
    requires
        wf(s),
        store::peer_of(s, SelectorV::NodeId(nodeid)) is Some,
    ensures
        store::peer_added(s, nodeid, name, None, now_ms) matches Some(t) ==> {
            let before = store::peer_of(s, SelectorV::NodeId(nodeid))->0;
            let after = store::peer_of(t, SelectorV::NodeId(nodeid));
            &&& after == Some(PeerV { name, ..before })
            &&& store::peer_of(t, SelectorV::Name(name)) == after
            &&& before.name != name ==> store::peer_of(t, SelectorV::Name(before.name)) is None
        },
{
    let known = queries::peer_selected(SelectorV::NodeId(nodeid));
    let f = queries::peer_renamed(name, None);
    table::lemma_filter_empty(s.peers, known);
    if let Some(t) = store::peer_added(s, nodeid, name, None, now_ms) {
        law_peer_added_wf(s, nodeid, name, None, now_ms);
        let i = choose|i: int| 0 <= i < s.peers.len() && known(#[trigger] s.peers[i]);
        table::lemma_first_unique(s.peers, peer_id_key(), known, i);
        let p = s.peers[i];
        assert(known(t.peers[i]));
        table::lemma_first_unique(t.peers, peer_id_key(), known, i);
        let named = queries::peer_selected(SelectorV::Name(name));
        assert(named(t.peers[i]));
        table::lemma_first_unique(t.peers, peer_name_key(), named, i);
        let stale = queries::peer_selected(SelectorV::Name(p.name));
        if p.name != name {
            assert forall|j: int| 0 <= j < t.peers.len() implies !stale(#[trigger] t.peers[j]) by {
                if j != i {
                    if j < i {
                        assert((peer_name_key())(s.peers[j]) != (peer_name_key())(s.peers[i]));
                        assert((peer_id_key())(s.peers[j]) != (peer_id_key())(s.peers[i]));
                    } else {
                        assert((peer_name_key())(s.peers[i]) != (peer_name_key())(s.peers[j]));
                        assert((peer_id_key())(s.peers[i]) != (peer_id_key())(s.peers[j]));
                    }
                }
            }
            table::lemma_filter_empty(t.peers, stale);
        }
    }
}

/// A peer that was added is found by its identifier and by its name, and no longer once removed.
pub proof fn law_peer_add_then_remove(
    s: StoreV,
    nodeid: Seq<u8>,
    name: Seq<char>,
    addr_blob: Option<Seq<u8>>,
    now_ms: u64,
)
    requires
        wf(s),
    ensures
        store::peer_added(s, nodeid, name, addr_blob, now_ms) matches Some(t) ==> {
            let p = store::peer_of(t, SelectorV::NodeId(nodeid));
            &&& p is Some
            &&& p->0.name == name
            &&& store::peer_of(t, SelectorV::Name(name)) == p
            &&& store::peer_of(
                store::peer_removed(t, SelectorV::NodeId(nodeid)),
                SelectorV::NodeId(nodeid),
            ) is None
            &&& store::peer_of(
                store::peer_removed(t, SelectorV::Name(name)),
                SelectorV::Name(name),
            ) is None
        },
{
    let known = queries::peer_selected(SelectorV::NodeId(nodeid));
    let named = queries::peer_selected(SelectorV::Name(name));
    if let Some(t) = store::peer_added(s, nodeid, name, addr_blob, now_ms) {
        law_peer_added_wf(s, nodeid, name, addr_blob, now_ms);
        let i = if table::any_of(s.peers, known) {
            choose|i: int| 0 <= i < s.peers.len() && known(#[trigger] s.peers[i])
        } else {
            s.peers.len() as int
        };
        assert(known(t.peers[i]));
        assert(named(t.peers[i]));
        table::lemma_first_unique(t.peers, peer_id_key(), known, i);
        table::lemma_first_unique(t.peers, peer_name_key(), named, i);
        lemma_removed(t.peers, known);
        lemma_removed(t.peers, named);
    }
}

proof fn lemma_removed(s: Seq<PeerV>, p: spec_fn(PeerV) -> bool)
    ensures
        table::first_of(table::without(s, p), p) is None,
{
    let keep = |a: PeerV| !p(a);
    let t = s.filter(keep);
    assert forall|i: int| 0 <= i < t.len() implies !p(#[trigger] t[i]) by {
        table::lemma_filter_contains(s, keep, t[i]);
        assert(t.contains(t[i]));
    }
    table::lemma_filter_empty(t, p);
}

// ----- tokens -----

/// A token that was entered is found; once revoked it is still found, as revoked.
pub proof fn law_token_insert_then_revoke(s: StoreV, t: TokenV)
    requires
        wf(s),
    ensures
        ({
            let found = store::token_of(store::token_inserted(s, t), t.id);
            let after = store::token_of(
                store::token_revoked(store::token_inserted(s, t), t.id),
                t.id,
            );
            &&& found is Some
            &&& found->0.raw == t.raw
            &&& found->0.revoked == t.revoked
            &&& store::token_of(s, t.id) is None ==> found == Some(t)
            &&& after is Some
            &&& after->0.revoked
        }),
{
    let known = queries::token_with_id(t.id);
    let u = store::token_inserted(s, t);
    law_token_changes_wf(s, t, t.id);
    table::lemma_filter_empty(s.tokens, known);
    let i = if table::any_of(s.tokens, known) {
        choose|i: int| 0 <= i < s.tokens.len() && known(#[trigger] s.tokens[i])
    } else {
        s.tokens.len() as int
    };
    assert(known(u.tokens[i]));
    table::lemma_first_unique(u.tokens, token_key(), known, i);
    let r = store::token_revoked(u, t.id);
    law_token_changes_wf(u, t, t.id);
    assert(known(r.tokens[i]));
    table::lemma_first_unique(r.tokens, token_key(), known, i);
}

/// A revoked token is never offered for use, whatever its expiry.
pub proof fn law_revoked_token_is_not_offered(
    s: StoreV,
    id: Seq<u8>,
    iss: Seq<u8>,
    sub: Seq<u8>,
    cap: Cap,
    now_secs: u64,
)
    ensures
        forall|t: TokenV|
            #[trigger] store::token_revoked(s, id).tokens.filter(
                queries::token_usable(iss, sub, cap, now_secs),
            ).contains(t) ==> t.id != id && !t.revoked && t.exp > now_secs && t.caps.contains(cap),
{
    let p = queries::token_usable(iss, sub, cap, now_secs);
    let u = store::token_revoked(s, id).tokens;
    assert forall|t: TokenV| #[trigger] u.filter(p).contains(t) implies t.id != id && !t.revoked
        && t.exp > now_secs && t.caps.contains(cap) by {
        table::lemma_filter_contains(u, p, t);
        let k = choose|k: int| 0 <= k < u.len() && u[k] == t;
        assert(u[k] == t);
    }
}

// ----- messages between peers -----

/// A message that arrives again is dropped: recording it a second time changes nothing, whatever
/// else the second copy says.
pub proof fn law_inbox_dedup(
    s: StoreV,
    sender: Seq<u8>,
    channel: Seq<char>,
    seq: u64,
    payload: Seq<u8>,
    ts_ms: u64,
    now_ms: u64,
    payload2: Seq<u8>,
    ts2_ms: u64,
    now2_ms: u64,
)
    ensures
        ({
            let once = store::recorded(s, sender, channel, seq, payload, ts_ms, now_ms);
            &&& store::already_seen(once, sender, store::channel_key(channel), seq)
            &&& store::recorded(once, sender, channel, seq, payload2, ts2_ms, now2_ms) == once
        }),
{
    let once = store::recorded(s, sender, channel, seq, payload, ts_ms, now_ms);
    let p = queries::message_with_key(sender, store::channel_key(channel), seq);
    if !store::already_seen(s, sender, store::channel_key(channel), seq) {
        assert(p(once.messages[s.messages.len() as int]));
    }
}

/// Sequence numbers on a channel go up by one with every message that the sender enqueues, and a
/// message on one channel does not move the numbers of another.
pub proof fn law_outbox_seq(
    s: StoreV,
    sender: Seq<u8>,
    peer: Seq<u8>,
    channel: Seq<char>,
    payload: Seq<u8>,
    now_ms: u64,
    other: Seq<u8>,
)
    requires
        store::last_message_seq(s, sender, store::channel_key(channel)) < u64::MAX,
    ensures
        ({
            let m = store::next_outbound(s, sender, peer, channel, payload, now_ms);
            let t = store::message_appended(s, m);
            &&& m.seq == store::last_message_seq(s, sender, store::channel_key(channel)) + 1
            &&& store::last_message_seq(t, sender, store::channel_key(channel)) == m.seq
            &&& other != store::channel_key(channel) ==> store::last_message_seq(t, sender, other)
                == store::last_message_seq(s, sender, other)
        }),
{
    let m = store::next_outbound(s, sender, peer, channel, payload, now_ms);
    let t = store::message_appended(s, m);
    assert(t.messages.drop_last() =~= s.messages);
}

/// An enqueued message is pending for its peer, and for no other.
pub proof fn law_enqueued_is_pending(
    s: StoreV,
    sender: Seq<u8>,
    peer: Seq<u8>,
    channel: Seq<char>,
    payload: Seq<u8>,
    now_ms: u64,
    other: Seq<u8>,
)
    ensures
        ({
            let m = store::next_outbound(s, sender, peer, channel, payload, now_ms);
            let t = store::message_appended(s, m);
            &&& store::pending_for(t, peer).contains(m)
            &&& other != peer ==> store::pending_for(t, other) == store::pending_for(s, other)
        }),
{
    let m = store::next_outbound(s, sender, peer, channel, payload, now_ms);
    let t = store::message_appended(s, m);
    let p = queries::message_pending_for(peer);
    assert(t.messages[s.messages.len() as int] == m);
    table::lemma_filter_contains(t.messages, p, m);
    table::lemma_stable_order_members(t.messages.filter(p), queries::messages_by_time(), m);
    if other != peer {
        reveal(Seq::filter);
        assert(t.messages.drop_last() =~= s.messages);
    }
}

/// A delivered message is no longer pending. Its delivery takes no other message from those that are
/// pending for the same peer, leaves their order, and leaves every other peer's as they were.
pub proof fn law_delivered_is_not_pending(s: StoreV, m: MessageV, now_ms: u64, other: Seq<u8>)
    requires
        wf(s),
        s.messages.contains(m),
        m.direction is Out,
    ensures
        ({
            let t = store::delivered(s, m.sender, m.channel_id, m.seq, now_ms);
            &&& store::pending_for(t, m.peer_nodeid) == store::pending_for(
                s,
                m.peer_nodeid,
            ).filter(|x: MessageV| (message_key())(x) != (message_key())(m))
            &&& other != m.peer_nodeid ==> store::pending_for(t, other) == store::pending_for(
                s,
                other,
            )
        }),
{
    let hit = queries::outbound_with_key(m.sender, m.channel_id, m.seq);
    let f = queries::message_delivered(now_ms);
    let t = store::delivered(s, m.sender, m.channel_id, m.seq, now_ms);
    let p = queries::message_pending_for(m.peer_nodeid);
    let rest = |x: MessageV| (message_key())(x) != (message_key())(m);
    table::lemma_filter_fewer(s.messages, t.messages, p, rest);
    lemma_messages_by_time();
    table::lemma_stable_order_filter(s.messages.filter(p), queries::messages_by_time(), rest);
    if other != m.peer_nodeid {
        let q = queries::message_pending_for(other);
        let k = choose|k: int| 0 <= k < s.messages.len() && s.messages[k] == m;
        assert forall|i: int| 0 <= i < s.messages.len() && hit(#[trigger] s.messages[i]) implies !q(
            s.messages[i],
        ) && !q(f(s.messages[i])) by {
            if i < k {
                assert((message_key())(s.messages[i]) != (message_key())(s.messages[k]));
            } else if i > k {
                assert((message_key())(s.messages[k]) != (message_key())(s.messages[i]));
            }
        }
        table::lemma_filter_unchanged(s.messages, q, hit, f);
    }
}

/// The order by time compares any two messages.
pub proof fn lemma_messages_by_time()
    ensures
        table::is_total_preorder(queries::messages_by_time()),
{
}

/// A peer's pending messages come oldest first, and those of one moment in the order in which they
/// were enqueued.
pub proof fn law_pending_is_fifo(s: StoreV, peer: Seq<u8>, m: MessageV)
    ensures
        table::is_ordered(store::pending_for(s, peer), queries::messages_by_time()),
        ({
            let le = queries::messages_by_time();
            store::pending_for(s, peer).filter(|b: MessageV| le(m, b) && le(b, m))
                == s.messages.filter(queries::message_pending_for(peer)).filter(
                |b: MessageV| le(m, b) && le(b, m),
            )
        }),
{
    lemma_messages_by_time();
    let pending = s.messages.filter(queries::message_pending_for(peer));
    table::law_stable_order(pending, queries::messages_by_time());
    table::law_stable_order_is_stable(pending, queries::messages_by_time(), m);
}

/// The inbox is read in the order of time, and shows exactly the inbound messages that pass the
/// filters; with no filter it shows the full history.
pub proof fn law_inbox(
    s: StoreV,
    peer: Option<Seq<u8>>,
    channel: Option<Seq<char>>,
    after_ms: Option<u64>,
    m: MessageV,
)
    ensures
        table::is_ordered(
            store::inbox(s, peer, channel, after_ms),
            queries::messages_by_time(),
        ),
        store::inbox(s, peer, channel, after_ms).contains(m) == (s.messages.contains(m) && (
        queries::message_inbound(peer, channel, after_ms))(m)),
        store::inbox(s, None, None, None).contains(m) == (s.messages.contains(m)
            && m.direction is In),
{
    lemma_messages_by_time();
    let p = queries::message_inbound(peer, channel, after_ms);
    let q = queries::message_inbound(None, None, None);
    table::law_stable_order(s.messages.filter(p), queries::messages_by_time());
    table::lemma_stable_order_members(s.messages.filter(p), queries::messages_by_time(), m);
    table::lemma_filter_contains(s.messages, p, m);
    table::lemma_stable_order_members(s.messages.filter(q), queries::messages_by_time(), m);
    table::lemma_filter_contains(s.messages, q, m);
}

// ----- groups, agents, sessions -----

/// Creating a group twice is creating it once.
pub proof fn law_group_create_idempotent(s: StoreV, name: Seq<char>, now_ms: u64, later_ms: u64)
    ensures
        store::has_group(store::group_created(s, name, now_ms), name),
        store::group_created(store::group_created(s, name, now_ms), name, later_ms)
            == store::group_created(s, name, now_ms),
{
    let t = store::group_created(s, name, now_ms);
    if !store::has_group(s, name) {
        assert((queries::group_named(name))(t.groups[s.groups.len() as int]));
    }
}

/// An agent that was registered is found by its token and by its name.
pub proof fn law_registered_agent_is_found(s: StoreV, a: AgentV)
    requires
        wf(s),
        !store::agent_refused(s, a),
    ensures
        store::agent_by_hash(store::agent_registered(s, a), a.token_hash) == Some(a),
        store::agent_of(store::agent_registered(s, a), a.group_name, a.name) == Some(a),
{
    let t = store::agent_registered(s, a);
    law_agent_registered_wf(s, a);
    let i = s.agents.len() as int;
    let p = queries::agent_with_token(a.token_hash);
    let q = queries::agent_named(a.group_name, a.name);
    assert(p(t.agents[i]) && q(t.agents[i]));
    table::lemma_first_unique(t.agents, agent_token_key(), p, i);
    table::lemma_first_unique(t.agents, agent_key(), q, i);
}

/// After reconciliation no agent counts as running and no session as active, and reconciling again
/// changes nothing.
pub proof fn law_reconciled(s: StoreV)
    ensures
        !table::any_of(store::reconciled(s).agents, queries::agent_live()),
        !table::any_of(store::reconciled(s).sessions, queries::session_active()),
        store::reconciled(store::reconciled(s)) == store::reconciled(s),
{
    let t = store::reconciled(s);
    reveal_strlit("starting");
    reveal_strlit("running");
    reveal_strlit("awaiting_input");
    reveal_strlit("exited");
    reveal_strlit("active");
    reveal_strlit("closed");
    assert("exited"@.len() == 6 && "starting"@.len() == 8 && "running"@.len() == 7
        && "awaiting_input"@.len() == 14);
    assert("active"@[0] == 'a' && "closed"@[0] == 'c');
    assert forall|i: int| 0 <= i < t.agents.len() implies !(queries::agent_live())(
        #[trigger] t.agents[i],
    ) by {}
    assert forall|i: int| 0 <= i < t.sessions.len() implies !(queries::session_active())(
        #[trigger] t.sessions[i],
    ) by {}
    assert(store::reconciled(t).agents =~= t.agents);
    assert(store::reconciled(t).sessions =~= t.sessions);
}

/// A session that was created is found, and once closed it is found as closed.
pub proof fn law_session_create_then_close(s: StoreV, row: SessionV)
    requires
        wf(s),
        !store::has_session(s, row.group_name, row.name),
    ensures
        ({
            let t = store::session_created(s, row);
            let u = store::session_closed(t, row.group_name, row.name);
            &&& store::session_of(t, row.group_name, row.name) == Some(row)
            &&& store::session_of(u, row.group_name, row.name) == Some(
                SessionV { status: "closed"@, ..row },
            )
        }),
{
    let t = store::session_created(s, row);
    let u = store::session_closed(t, row.group_name, row.name);
    law_session_changes_wf(s, row, row.group_name, row.name);
    law_session_changes_wf(t, row, row.group_name, row.name);
    let i = s.sessions.len() as int;
    let p = queries::session_named(row.group_name, row.name);
    assert(p(t.sessions[i]) && p(u.sessions[i]));
    table::lemma_first_unique(t.sessions, session_key(), p, i);
    table::lemma_first_unique(u.sessions, session_key(), p, i);
}

// ----- the agent bus -----

/// Sequence numbers in a session go up by one with every message, whatever the retention limit has
/// dropped; a message in one session does not move the numbers of another.
pub proof fn law_bus_seq(
    s: StoreV,
    group: Seq<char>,
    session: Seq<char>,
    from_agent: Seq<char>,
    to_agent: Seq<char>,
    kind: Seq<char>,
    payload: Seq<u8>,
    now_ms: u64,
    other: Seq<char>,
)
    requires
        store::last_bus_seq(s, group, session) < u64::MAX,
        s.retention > 0,
    ensures
        ({
            let m = store::next_bus(s, group, session, from_agent, to_agent, kind, payload, now_ms);
            let t = store::bus_appended(s, m);
            &&& m.seq == store::last_bus_seq(s, group, session) + 1
            &&& t.bus.contains(m)
            &&& store::last_bus_seq(t, group, session) == m.seq
            &&& other != session ==> store::last_bus_seq(t, group, other) == store::last_bus_seq(
                s,
                group,
                other,
            )
        }),
{
    let m = store::next_bus(s, group, session, from_agent, to_agent, kind, payload, now_ms);
    let t = store::bus_appended(s, m);
    let all = s.bus.push(m);
    let gone = queries::bus_outlived(group, session, m.seq, s.retention);
    let keep = |a: BusV| !gone(a);
    let of = queries::bus_of_session(group, session);
    assert(all.drop_last() =~= s.bus);
    assert(all[s.bus.len() as int] == m);
    table::lemma_filter_contains(all, keep, m);
    lemma_highest_filter(all, of, keep, queries::bus_seq());
    let k = choose|k: int| 0 <= k < t.bus.len() && t.bus[k] == m;
    table::lemma_highest(t.bus, of, queries::bus_seq(), k);
    if other != session {
        let ofo = queries::bus_of_session(group, other);
        lemma_highest_kept(all, ofo, keep, queries::bus_seq());
    }
}

proof fn lemma_highest_kept(
    s: Seq<BusV>,
    p: spec_fn(BusV) -> bool,
    keep: spec_fn(BusV) -> bool,
    number: spec_fn(BusV) -> u64,
)
    requires
        forall|a: BusV| #[trigger] p(a) ==> keep(a),
    ensures
        table::highest(s.filter(keep), p, number) == table::highest(s, p, number),
    decreases s.len(),
{
    reveal(Seq::filter);
    if s.len() > 0 {
        lemma_highest_kept(s.drop_last(), p, keep, number);
        if keep(s.last()) {
            assert(s.filter(keep).drop_last() =~= s.drop_last().filter(keep));
        }
    }
}

/// A message sent on the bus is in its recipient's unread backlog and in the session's transcript.
pub proof fn law_bus_sent_is_unread(
    s: StoreV,
    group: Seq<char>,
    session: Seq<char>,
    from_agent: Seq<char>,
    to_agent: Seq<char>,
    kind: Seq<char>,
    payload: Seq<u8>,
    now_ms: u64,
)
    requires
        store::last_bus_seq(s, group, session) < u64::MAX,
        s.retention > 0,
    ensures
        ({
            let m = store::next_bus(s, group, session, from_agent, to_agent, kind, payload, now_ms);
            let t = store::bus_appended(s, m);
            &&& store::backlog(t, group, to_agent, Some(session), None, true).contains(m)
            &&& store::backlog(t, group, to_agent, None, None, true).contains(m)
            &&& store::pending_kind(t, group, to_agent, kind).contains(m)
            &&& store::session_log(t, group, session, 0).contains(m)
        }),
{
    law_bus_seq(s, group, session, from_agent, to_agent, kind, payload, now_ms, session);
    let m = store::next_bus(s, group, session, from_agent, to_agent, kind, payload, now_ms);
    let t = store::bus_appended(s, m);
    lemma_shown(
        t.bus,
        queries::bus_backlog(group, to_agent, Some(session), None, true),
        queries::bus_by_time(),
        m,
    );
    lemma_shown(
        t.bus,
        queries::bus_backlog(group, to_agent, None, None, true),
        queries::bus_by_time(),
        m,
    );
    lemma_shown(
        t.bus,
        queries::bus_pending(group, to_agent, kind),
        queries::bus_by_seq(),
        m,
    );
    lemma_shown(t.bus, queries::bus_log(group, session, 0), queries::bus_by_seq(), m);
}

proof fn lemma_shown(
    s: Seq<BusV>,
    p: spec_fn(BusV) -> bool,
    le: spec_fn(BusV, BusV) -> bool,
    m: BusV,
)
    ensures
        table::stable_order(s.filter(p), le).contains(m) == (s.contains(m) && p(m)),
{
    table::lemma_filter_contains(s, p, m);
    table::lemma_stable_order_members(s.filter(p), le, m);
}

/// A message that was read is unread no more, for its reader and for the supervisor alike, and every
/// other unread message stays.
pub proof fn law_consumed_is_read(
    s: StoreV,
    group: Seq<char>,
    session: Seq<char>,
    seq: u64,
    now_ms: u64,
    to_agent: Seq<char>,
    kind: Seq<char>,
    m: BusV,
)
    ensures
        ({
            let t = store::consumed(s, group, session, seq, now_ms);
            let hit = queries::bus_with_key(group, session, seq);
            &&& store::backlog(t, group, to_agent, None, None, true).contains(m) == (
            store::backlog(s, group, to_agent, None, None, true).contains(m) && !hit(m))
            &&& store::pending_kind(t, group, to_agent, kind).contains(m) == (store::pending_kind(
                s,
                group,
                to_agent,
                kind,
            ).contains(m) && !hit(m))
        }),
{
    let t = store::consumed(s, group, session, seq, now_ms);
    let hit = queries::bus_with_key(group, session, seq);
    let p = queries::bus_backlog(group, to_agent, None, None, true);
    let q = queries::bus_pending(group, to_agent, kind);
    lemma_shown(t.bus, p, queries::bus_by_time(), m);
    lemma_shown(s.bus, p, queries::bus_by_time(), m);
    lemma_shown(t.bus, q, queries::bus_by_seq(), m);
    lemma_shown(s.bus, q, queries::bus_by_seq(), m);
    if s.bus.contains(m) && !hit(m) {
        let k = choose|k: int| 0 <= k < s.bus.len() && s.bus[k] == m;
        assert(t.bus[k] == m);
    }
    if t.bus.contains(m) && m.consumed_at_ms is None {
        let k = choose|k: int| 0 <= k < t.bus.len() && t.bus[k] == m;
        assert(s.bus[k] == m);
        assert(!hit(m));
    }
}

/// Reading does not take a message out of the full view of the backlog: it is there as before, with
/// the time at which it was read.
pub proof fn law_consumed_stays_visible(
    s: StoreV,
    group: Seq<char>,
    session: Seq<char>,
    seq: u64,
    now_ms: u64,
    to_agent: Seq<char>,
    m: BusV,
)
    requires
        store::backlog(s, group, to_agent, None, None, false).contains(m),
    ensures
        ({
            let t = store::consumed(s, group, session, seq, now_ms);
            let hit = queries::bus_with_key(group, session, seq);
            store::backlog(t, group, to_agent, None, None, false).contains(
                if hit(m) {
                    (queries::bus_consumed(now_ms))(m)
                } else {
                    m
                },
            )
        }),
{
    let t = store::consumed(s, group, session, seq, now_ms);
    let hit = queries::bus_with_key(group, session, seq);
    let p = queries::bus_backlog(group, to_agent, None, None, false);
    lemma_shown(s.bus, p, queries::bus_by_time(), m);
    let k = choose|k: int| 0 <= k < s.bus.len() && s.bus[k] == m;
    let n = t.bus[k];
    assert(t.bus.contains(n));
    lemma_shown(t.bus, p, queries::bus_by_time(), n);
}

/// A backlog comes oldest first, the pending messages of a kind and the transcript by their sequence
/// numbers, and the feed of a group in the order of time.
pub proof fn law_bus_order(
    s: StoreV,
    group: Seq<char>,
    agent: Seq<char>,
    session: Option<Seq<char>>,
    after_ms: Option<u64>,
    unconsumed_only: bool,
    kind: Seq<char>,
    log_session: Seq<char>,
    after_seq: u64,
    feed_after_ms: u64,
)
    ensures
        table::is_ordered(
            store::backlog(s, group, agent, session, after_ms, unconsumed_only),
            queries::bus_by_time(),
        ),
        table::is_ordered(store::pending_kind(s, group, agent, kind), queries::bus_by_seq()),
        table::is_ordered(
            store::session_log(s, group, log_session, after_seq),
            queries::bus_by_seq(),
        ),
        table::is_ordered(store::group_feed(s, group, feed_after_ms), queries::bus_interleaved()),
{
    table::law_stable_order(
        s.bus.filter(queries::bus_backlog(group, agent, session, after_ms, unconsumed_only)),
        queries::bus_by_time(),
    );
    table::law_stable_order(
        s.bus.filter(queries::bus_pending(group, agent, kind)),
        queries::bus_by_seq(),
    );
    table::law_stable_order(
        s.bus.filter(queries::bus_log(group, log_session, after_seq)),
        queries::bus_by_seq(),
    );
    lemma_interleaved();
    table::law_stable_order(
        s.bus.filter(queries::bus_feed(group, feed_after_ms)),
        queries::bus_interleaved(),
    );
}

proof fn lemma_interleaved()
    ensures
        table::is_total_preorder(queries::bus_interleaved()),
{
    let le = queries::bus_interleaved();
    assert forall|a: BusV, b: BusV| #[trigger] le(a, b) || le(b, a) by {
        crate::text::lemma_text_order(a.session_name, b.session_name, a.session_name);
    }
    assert forall|a: BusV, b: BusV, c: BusV| #[trigger] le(a, b) && #[trigger] le(b, c) implies le(
        a,
        c,
    ) by {
        crate::text::lemma_text_order(a.session_name, b.session_name, c.session_name);
        crate::text::lemma_text_order(b.session_name, c.session_name, a.session_name);
        crate::text::lemma_text_order(c.session_name, a.session_name, b.session_name);
        crate::text::lemma_text_order(b.session_name, a.session_name, c.session_name);
    }
}

/// The transcript of a session holds every message of it behind the given number, in both
/// directions.
pub proof fn law_session_log_is_complete(
    s: StoreV,
    group: Seq<char>,
    session: Seq<char>,
    after_seq: u64,
    m: BusV,
)
    ensures
        store::session_log(s, group, session, after_seq).contains(m) == (s.bus.contains(m)
            && m.group_name == group && m.session_name == session && m.seq > after_seq),
{
    lemma_shown(
        s.bus,
        queries::bus_log(group, session, after_seq),
        queries::bus_by_seq(),
        m,
    );
}

/// Opening a store brings its schema up to date and loses nothing else: every other setting and every
/// table stays as it was, and a store of this version or a later one stays whole.
pub proof fn law_opening_loses_nothing(s: StoreV, m: MetaV)
    ensures
        ({
            let t = store::reopened(s);
            &&& t == StoreV { meta: t.meta, ..s }
            &&& m.key != "schema_version"@ ==> (t.meta.contains(m) <==> s.meta.contains(m))
            &&& t.meta != s.meta ==> t.meta.contains(
                MetaV { key: "schema_version"@, value: seq![51u8] },
            )
        }),
{
    let named = queries::meta_named("schema_version"@);
    let keep = |x: MetaV| !named(x);
    let rest = table::without(s.meta, named);
    let row = MetaV { key: "schema_version"@, value: seq![51u8] };
    table::lemma_filter_contains(s.meta, keep, m);
    let t = store::meta_upgraded(s.meta);
    if t != s.meta {
        assert(t == rest.push(row));
        assert(t[rest.len() as int] == row);
        if rest.contains(m) {
            let k = choose|k: int| 0 <= k < rest.len() && rest[k] == m;
            assert(t[k] == m);
        }
        if t.contains(m) {
            let k = choose|k: int| 0 <= k < t.len() && t[k] == m;
            if k < rest.len() {
                assert(rest[k] == m);
            }
        }
    }
}

/// A stored version is read as the number that it writes, digit by digit and with a sign or without;
/// none, and what writes no number, is read as nothing.
pub proof fn law_stored_version_is_read(b: Seq<u8>, d: u8)
    requires
        d < 10,
    ensures
        store::version_of(None) == 0,
        store::ascii_value(Seq::empty()) == 0,
        store::ascii_value(b.push((48 + d) as u8)) == 10 * store::ascii_value(b) + d,
        store::is_ascii_decimal(b) && store::ascii_value(b) <= i64::MAX ==> {
            &&& store::version_of(Some(b)) == store::ascii_value(b)
            &&& store::version_of(Some(seq![43u8] + b)) == store::ascii_value(b)
            &&& store::version_of(Some(seq![45u8] + b)) == -store::ascii_value(b)
        },
        b.len() == 0 ==> store::version_of(Some(b)) == 0,
        b.len() > 0 && b[0] > 57 ==> store::version_of(Some(b)) == 0,
{
    assert(b.push((48 + d) as u8).drop_last() =~= b);
    assert((seq![43u8] + b).skip(1) =~= b);
    assert((seq![45u8] + b).skip(1) =~= b);
    if store::is_ascii_decimal(b) {
        assert(48 <= b[0] <= 57);
    }
}

/// A store has as many steps of its schema behind it as its version says, none where that is negative,
/// and all three where it is later than all; after a step has run it is not run again.
pub proof fn law_steps_are_run_once(version: int)
    ensures
        0 <= store::steps_done(version) <= 3,
        0 <= version <= 3 ==> store::steps_done(version) == version,
        version < 0 ==> store::steps_done(version) == 0,
        version > 3 ==> store::steps_done(version) == 3,
        store::steps_done(store::steps_done(version)) == store::steps_done(version),
{
}

} // verus!
