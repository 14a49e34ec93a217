//! What agents say to each other, and what each of them is shown.

use vstd::prelude::*;

use crate::agents;
use crate::bus;
use crate::bus::BusEventV;
use crate::daemon;
use crate::daemon::DaemonV;
use crate::daemon::MomentV;
use crate::daemon::NextV;
use crate::dispatch;
use crate::ipc::AgentMsgKind;
use crate::ipc::EventV;
use crate::ipc::IpcErrorCode;
use crate::ipc::IpcRequest;
use crate::lookup_laws;
use crate::queries;
use crate::rows::AgentV;
use crate::rows::BusV;
use crate::rows::SessionV;
use crate::spawn_laws;
use crate::store;
use crate::store_laws;
use crate::table;
use crate::text;

verus! {

/// Whether an event shows a stored message as it was said. A kind that has no name of its own is shown
/// as a free-form message.
pub open spec fn shows(e: EventV, m: BusV) -> bool {
    e matches EventV::AgentMsg { session, from_agent, kind, payload, ts_ms } && {
        &&& session == m.session_name
        &&& from_agent == m.from_agent
        &&& payload == m.payload
        &&& ts_ms == m.enqueued_at_ms
        &&& lookup_laws::stored_kind(kind) == m.kind || kind is User
        &&& forall|k: AgentMsgKind|
            m.kind == #[trigger] lookup_laws::stored_kind(k) ==> kind == k
    }
}

/// Whether a message is one that a reader asks for: to itself in its group, of the session that it asks
/// for, and unread where it consumes; where it does not consume, after the moment that it gives.
pub open spec fn asked_for(
    m: BusV,
    me: AgentV,
    session: Option<Seq<char>>,
    since_ms: Option<u64>,
    consume: bool,
) -> bool {
    &&& m.group_name == me.group_name
    &&& m.to_agent == me.name
    &&& session is Some ==> m.session_name == session->0
    &&& consume ==> m.consumed_at_ms is None
    &&& !consume && since_ms is Some ==> m.enqueued_at_ms > since_ms->0
}

/// A reader of the bus is shown messages that it asks for and no others: to itself, of its session, and
/// either the unread ones or, where it does not consume, those after its moment, read or not. They
/// come in the order of their time, and after them comes the end of the backlog. As long as the
/// backlog is not full, every message that it asks for is shown, and else the oldest are.
pub proof fn law_reader_is_shown_what_it_asks_for(
    s: DaemonV,
    req: IpcRequest,
    at: MomentV,
    me: AgentV,
    m: BusV,
    i: int,
    j: int,
)
    requires
        req is AgentRecv,
        agents::bearer(s, req->AgentRecv_token@) == Some(me),
    ensures
        ({
            let session = text::opt_text(req->AgentRecv_session);
            let since_ms = req->AgentRecv_since_ms;
            let consume = req->consume;
            let r = dispatch::handled(s, req, at);
            let n = r.events.len() - 1;
            &&& r.state == s
            &&& 0 <= n <= 10_000
            &&& r.events[n] is AgentBacklogEnd
            &&& 0 <= i < n ==> exists|x: BusV| #[trigger]
                s.store.bus.contains(x) && asked_for(x, me, session, since_ms, consume) && shows(
                    r.events[i],
                    x,
                )
            &&& s.store.bus.contains(m) && asked_for(m, me, session, since_ms, consume) && n
                < 10_000 ==> exists|k: int| 0 <= k < n && #[trigger] shows(r.events[k], m)
            &&& s.store.bus.contains(m) && asked_for(m, me, session, since_ms, consume) && 0 <= i
                < n ==> r.events[i]->AgentMsg_ts_ms <= m.enqueued_at_ms || exists|k: int|
                0 <= k < n && #[trigger] shows(r.events[k], m)
            &&& 0 <= i < j < n ==> r.events[i]->AgentMsg_ts_ms <= r.events[j]->AgentMsg_ts_ms
        }),
{
    let session = text::opt_text(req->AgentRecv_session);
    let since_ms = req->AgentRecv_since_ms;
    let consume = req->consume;
    let r = dispatch::handled(s, req, at);
    let rows = agents::shown_backlog(s.store, me, session, since_ms, consume);
    let after = if consume {
        None
    } else {
        since_ms
    };
    let all = store::backlog(s.store, me.group_name, me.name, session, after, consume);
    assert(rows.len() <= all.len());
    assert forall|k: int| 0 <= k < rows.len() implies rows[k] == all[k] by {}
    if 0 <= i < rows.len() {
        assert(all.contains(rows[i]));
        lookup_laws::law_backlog_holds(
            s.store,
            me.group_name,
            me.name,
            session,
            after,
            consume,
            rows[i],
            0,
            0,
        );
        lemma_shown(rows[i]);
        assert(r.events[i] == bus::shown(rows[i]));
        assert(s.store.bus.contains(rows[i]));
    }
    lookup_laws::law_backlog_holds(
        s.store,
        me.group_name,
        me.name,
        session,
        after,
        consume,
        m,
        i,
        j,
    );
    if all.contains(m) {
        let k = choose|k: int| 0 <= k < all.len() && all[k] == m;
        if k < rows.len() {
            lemma_shown(m);
            assert(r.events[k] == bus::shown(rows[k]));
            assert(shows(r.events[k], m));
        } else if 0 <= i < rows.len() {
            lookup_laws::law_backlog_holds(
                s.store,
                me.group_name,
                me.name,
                session,
                after,
                consume,
                m,
                i,
                k,
            );
        }
    }
    if 0 <= i < j < rows.len() {
        assert(r.events[i] == bus::shown(rows[i]));
        assert(r.events[j] == bus::shown(rows[j]));
    }
}

proof fn lemma_shown(m: BusV)
    ensures
        shows(bus::shown(m), m),
{
    lookup_laws::law_kinds_are_kept(AgentMsgKind::User, m.kind);
    assert forall|k: AgentMsgKind|
        m.kind == #[trigger] lookup_laws::stored_kind(k) implies bus::shown(m)->AgentMsg_kind
        == k by {
        lookup_laws::law_kinds_are_kept(k, m.kind);
    }
}

/// What a reader goes on with is its own: it goes on with the messages to it, of its session, where it
/// follows. A consuming reader marks what it was shown, each message at its own place and no other;
/// another one marks nothing.
pub proof fn law_reader_goes_on_with_its_own(
    s: DaemonV,
    req: IpcRequest,
    at: MomentV,
    me: AgentV,
    i: int,
)
    requires
        req is AgentRecv,
        agents::bearer(s, req->AgentRecv_token@) == Some(me),
    ensures
        ({
            let session = text::opt_text(req->AgentRecv_session);
            let r = dispatch::handled(s, req, at);
            let n = r.events.len() - 1;
            &&& r.next matches NextV::ReadBus(b) && {
                &&& b.group == me.group_name
                &&& b.agent == me.name
                &&& b.session == session
                &&& b.consume == req->consume
                &&& b.follow == req->AgentRecv_follow
                &&& b.marks.len() == if req->consume {
                    n
                } else {
                    0
                }
                &&& 0 <= i < b.marks.len() ==> exists|x: BusV| #[trigger]
                    s.store.bus.contains(x) && x.group_name == b.group && x.consumed_at_ms is None
                        && shows(r.events[i], x) && b.marks[i].session == x.session_name
                        && b.marks[i].seq == x.seq
            }
        }),
{
    let session = text::opt_text(req->AgentRecv_session);
    let r = dispatch::handled(s, req, at);
    let rows = agents::shown_backlog(s.store, me, session, req->AgentRecv_since_ms, req->consume);
    if req->consume && 0 <= i < rows.len() {
        let all = store::backlog(s.store, me.group_name, me.name, session, None, true);
        assert(rows[i] == all[i]);
        assert(all.contains(rows[i]));
        lookup_laws::law_backlog_holds(
            s.store,
            me.group_name,
            me.name,
            session,
            None,
            true,
            rows[i],
            0,
            0,
        );
        lemma_shown(rows[i]);
        assert(r.events[i] == bus::shown(rows[i]));
        assert(s.store.bus.contains(rows[i]));
    }
}

/// What an agent sends into a session that it is an end of is said there to the other end: as it was
/// sent, at that time, under its name and kind, once; and it is published as it is stored. Into a
/// session that is not there, or that it is no end of, nothing is sent.
pub proof fn law_message_is_said_to_the_other_end(
    s: DaemonV,
    req: IpcRequest,
    at: MomentV,
    me: AgentV,
    x: SessionV,
)
    requires
        store_laws::wf(s.store),
        s.store.retention > 0,
        req is AgentSend,
        agents::bearer(s, req->AgentSend_token@) == Some(me),
        s.store.sessions.contains(x),
        x.group_name == me.group_name,
        x.name == req->AgentSend_session@,
        bus::has_room(s.store, me.group_name, req->AgentSend_session@),
    ensures
        ({
            let r = dispatch::handled(s, req, at);
            if me.name != x.prime_agent && me.name != x.child_agent {
                spawn_laws::refuses(r, s, IpcErrorCode::BadRequest)
            } else {
                let t = r.state.store;
                &&& r.events == seq![EventV::Done]
                &&& r.state == daemon::with_store(s, t)
                &&& lookup_laws::said(s.store, t, t.bus.last())
                &&& lookup_laws::is_message(
                    t.bus.last(),
                    me.group_name,
                    x.name,
                    me.name,
                    if me.name == x.prime_agent {
                        x.child_agent
                    } else {
                        x.prime_agent
                    },
                    lookup_laws::stored_kind(req->AgentSend_kind),
                    req->AgentSend_payload@,
                    at.now_ms,
                )
                &&& r.next matches NextV::Publish(e) && lookup_laws::tells(e, t.bus.last())
            }
        }),
{
    let session = req->AgentSend_session@;
    lookup_laws::law_session_is_found(s.store, me.group_name, session);
    let k = choose|k: int| 0 <= k < s.store.sessions.len() && s.store.sessions[k] == x;
    table::lemma_first_unique(
        s.store.sessions,
        store_laws::session_key(),
        queries::session_named(me.group_name, session),
        k,
    );
    let to = if me.name == x.prime_agent {
        x.child_agent
    } else {
        x.prime_agent
    };
    lookup_laws::law_sent_is_said(
        s.store,
        me.group_name,
        session,
        me.name,
        to,
        req->AgentSend_kind,
        req->AgentSend_payload@,
        at.now_ms,
    );
}

/// Into a session that is not there nothing is sent.
pub proof fn law_no_message_without_a_session(s: DaemonV, req: IpcRequest, at: MomentV, me: AgentV)
    requires
        req is AgentSend,
        agents::bearer(s, req->AgentSend_token@) == Some(me),
        forall|i: int|
            0 <= i < s.store.sessions.len() ==> !((#[trigger] s.store.sessions[i]).group_name
                == me.group_name && s.store.sessions[i].name == req->AgentSend_session@),
    ensures
        spawn_laws::refuses(dispatch::handled(s, req, at), s, IpcErrorCode::NotFound),
{
    lookup_laws::law_session_is_found(s.store, me.group_name, req->AgentSend_session@);
}

/// Whoever listens is shown what is said to it in its group, and in its session where it listens to
/// one, as it was said, and nothing else.
pub proof fn law_listener_is_shown_what_is_for_it(
    e: BusEventV,
    group: Seq<char>,
    agent: Seq<char>,
    session: Option<Seq<char>>,
)
    ensures
        bus::live_shown(e, group, agent, session) is Some <==> e.group == group && e.to_agent
            == agent && (session is Some ==> e.session == session->0),
        bus::live_shown(e, group, agent, session) is Some ==> bus::live_shown(
            e,
            group,
            agent,
            session,
        ) == Some(
            EventV::AgentMsg {
                session: e.session,
                from_agent: e.from_agent,
                kind: e.kind,
                payload: e.payload,
                ts_ms: e.ts_ms,
            },
        ),
{
}

/// What a listener is shown the moment it is said is what a reader of the backlog is shown later.
pub proof fn law_live_and_later_are_the_same(
    e: BusEventV,
    m: BusV,
    session: Option<Seq<char>>,
)
    requires
        lookup_laws::tells(e, m),
        session is Some ==> m.session_name == session->0,
    ensures
        bus::live_shown(e, m.group_name, m.to_agent, session) == Some(bus::shown(m)),
{
    lookup_laws::law_kinds_are_kept(e.kind, m.kind);
}

} // verus!
