//! What holds of the daemon's answers whatever it is asked.

use vstd::prelude::*;

use crate::agents;
use crate::auth;
use crate::auth::AuthError;
use crate::bus;
use crate::crypto;
use crate::daemon;
use crate::daemon::DaemonV;
use crate::daemon::LaunchV;
use crate::daemon::MarkV;
use crate::daemon::MomentV;
use crate::daemon::NextV;
use crate::daemon::OrderV;
use crate::daemon::ReplyV;
use crate::dispatch;
use crate::ipc;
use crate::ipc::AgentMsgKind;
use crate::ipc::EventV;
use crate::ipc::IpcErrorCode;
use crate::ipc::IpcRequest;
use crate::ipc::SelectorV;
use crate::peering;
use crate::queries;
use crate::rows::AgentV;
use crate::rows::BusV;
use crate::rows::Direction;
use crate::rows::MessageV;
use crate::rows::SessionV;
use crate::store;
use crate::store::StoreV;
use crate::store_laws;
use crate::table;
use crate::token::Cap;
use crate::token::ClaimsV;
use crate::token::SignedToken;
use crate::workspace::WorkspaceV;

verus! {

// ----- the store's invariant -----

/// Whatever is asked, the answer leaves a store that satisfies the store's invariant.
pub proof fn law_handled_wf(s: DaemonV, req: IpcRequest, at: MomentV)
    requires
        store_laws::wf(s.store),
    ensures
        store_laws::wf(dispatch::handled(s, req, at).state.store),
{
    match req {
        IpcRequest::PeerAdd { nodeid, name, addr_blob } => {
            store_laws::law_peer_added_wf(
                s.store,
                nodeid@,
                name@,
                crate::text::opt_bytes(addr_blob),
                at.now_ms,
            );
        },
        IpcRequest::PeerRm { selector } => {
            store_laws::law_peer_changes_wf(s.store, selector@, Seq::empty(), at.now_ms);
        },
        IpcRequest::TokenRevoke { id } => {
            lemma_revoked_wf(s.store, id@);
        },
        IpcRequest::Send { peer, channel, payload } => {
            if let Some(p) = store::peer_of(s.store, peer@) {
                store_laws::law_message_changes_wf(
                    s.store,
                    daemon::local_id(s),
                    p.nodeid,
                    channel@,
                    0,
                    payload@,
                    0,
                    at.now_ms,
                );
            }
        },
        IpcRequest::GroupNew { name } => {
            store_laws::law_group_created_wf(s.store, name@, at.now_ms);
            store_laws::law_agent_registered_wf(
                store::group_created(s.store, name@, at.now_ms),
                agents::first_prime(name@, at),
            );
        },
        IpcRequest::AgentSend { token, session, kind, payload } => {
            if let Some(me) = agents::bearer(s, token@) {
                if let Some(x) = store::session_of(s.store, me.group_name, session@) {
                    if let Some(to) = agents::other_end(x, me.name) {
                        lemma_sent_wf(
                            s.store,
                            me.group_name,
                            session@,
                            me.name,
                            to,
                            kind,
                            payload@,
                            at.now_ms,
                        );
                    }
                }
            }
        },
        IpcRequest::AgentKill { token, agent } => {
            if let Some(me) = agents::bearer(s, token@) {
                lemma_ended_wf(s.store, me.group_name, agent@, agent@, at.now_ms);
            }
        },
        IpcRequest::SessionClose { token, session, discard } => {
            if let Some(me) = agents::bearer(s, token@) {
                if let Some(x) = store::session_of(s.store, me.group_name, session@) {
                    lemma_ended_wf(s.store, me.group_name, x.child_agent, session@, at.now_ms);
                }
            }
        },
        _ => {},
    }
}

/// The later steps of a request, too, leave a store that satisfies the store's invariant.
pub proof fn law_steps_wf(
    s: DaemonV,
    claims: ClaimsV,
    raw: Seq<u8>,
    signed: SignedToken,
    decoded: Option<ClaimsV>,
    o: OrderV,
    ws: WorkspaceV,
    at: MomentV,
    l: LaunchV,
    pid: Option<i64>,
    at_ms: u64,
    reason: Seq<char>,
)
    requires
        store_laws::wf(s.store),
    ensures
        store_laws::wf(daemon::granted_reply(s, claims, raw).state.store),
        store_laws::wf(daemon::import_reply(s, signed, decoded, raw).state.store),
        store_laws::wf(agents::provisioned_reply(s, o, ws, at).state.store),
        store_laws::wf(agents::launched_reply(s, l, pid, at.now_ms, at_ms).state.store),
        store_laws::wf(agents::launch_failed_reply(s, l, reason, at.now_ms).state.store),
{
    store_laws::law_token_changes_wf(s.store, auth::row_of(claims, raw), Seq::empty());
    if let Some(c) = decoded {
        store_laws::law_token_changes_wf(s.store, auth::row_of(c, raw), Seq::empty());
    }
    let child = agents::child_of(o, at);
    store_laws::law_agent_registered_wf(s.store, child);
    let s1 = store::agent_registered(s.store, child);
    store_laws::law_agent_changes_wf(s1, o.group, o.session, "exited"@, None, at.now_ms);
    store_laws::law_session_changes_wf(
        s1,
        agents::session_of_order(o, ws, at),
        o.group,
        o.session,
    );
    let g = l.order.group;
    let n = l.order.session;
    store_laws::law_agent_changes_wf(s.store, g, n, "exited"@, None, at.now_ms);
    store_laws::law_agent_changes_wf(s.store, g, n, "running"@, pid, at.now_ms);
    let running = store::status_set(s.store, g, n, "running"@, pid, at.now_ms);
    if bus::has_room(running, g, n) {
        let m = bus::row_for(
            running,
            g,
            n,
            l.order.prime,
            n,
            AgentMsgKind::TurnInput,
            crate::text::utf8(l.spec.initial_prompt),
            at.now_ms,
        );
        lemma_sent_wf(
            running,
            g,
            n,
            l.order.prime,
            n,
            AgentMsgKind::TurnInput,
            crate::text::utf8(l.spec.initial_prompt),
            at.now_ms,
        );
        store_laws::law_consumed_wf(store::bus_appended(running, m), g, n, m.seq, at.now_ms);
    }
}

proof fn lemma_revoked_wf(s: StoreV, id: Seq<u8>)
    requires
        store_laws::wf(s),
    ensures
        store_laws::wf(store::token_revoked(s, id)),
{
    let p = queries::token_with_id(id);
    if table::any_of(s.tokens, p) {
        let i = choose|i: int| 0 <= i < s.tokens.len() && p(#[trigger] s.tokens[i]);
        store_laws::law_token_changes_wf(s, s.tokens[i], id);
    } else {
        assert(store::token_revoked(s, id).tokens =~= s.tokens);
    }
}

proof fn lemma_sent_wf(
    s: StoreV,
    group: Seq<char>,
    session: Seq<char>,
    from: Seq<char>,
    to: Seq<char>,
    kind: AgentMsgKind,
    payload: Seq<u8>,
    now_ms: u64,
)
    requires
        store_laws::wf(s),
    ensures
        store_laws::wf(bus::sent(s, group, session, from, to, kind, payload, now_ms)),
{
    if bus::has_room(s, group, session) {
        store_laws::law_bus_appended_wf(
            s,
            group,
            session,
            from,
            to,
            bus::kind_name(kind),
            payload,
            now_ms,
        );
    }
}

proof fn lemma_ended_wf(
    s: StoreV,
    group: Seq<char>,
    agent: Seq<char>,
    session: Seq<char>,
    now_ms: u64,
)
    requires
        store_laws::wf(s),
    ensures
        store_laws::wf(
            store::session_closed(
                store::status_set(s, group, agent, "exited"@, None, now_ms),
                group,
                session,
            ),
        ),
{
    store_laws::law_agent_changes_wf(s, group, agent, "exited"@, None, now_ms);
    let t = store::status_set(s, group, agent, "exited"@, None, now_ms);
    let named = queries::session_named(group, session);
    if table::any_of(t.sessions, named) {
        let i = choose|i: int| 0 <= i < t.sessions.len() && named(#[trigger] t.sessions[i]);
        store_laws::law_session_changes_wf(t, t.sessions[i], group, session);
    } else {
        assert(store::session_closed(t, group, session).sessions =~= t.sessions);
    }
}

/// Whatever is asked, what was saved before is loaded again after a restart: the settings by which
/// the tables are read stay as they are.
pub proof fn law_handled_keeps_the_schema(s: DaemonV, req: IpcRequest, at: MomentV)
    requires
        store::reopened(s.store) == s.store,
    ensures
        store::reopened(dispatch::handled(s, req, at).state.store) == dispatch::handled(
            s,
            req,
            at,
        ).state.store,
{
}

// ----- between two installs -----

/// What one install grants another lets that one in. Once the token is imported there, it is
/// presented, or one that is good for at least as long; the install that granted it accepts it until
/// it expires, unless it revokes it.
pub proof fn law_granted_token_lets_in(
    a: DaemonV,
    b: DaemonV,
    peer: SelectorV,
    caps: Seq<Cap>,
    ttl_secs: Option<u64>,
    at: MomentV,
    signed: SignedToken,
    raw: Seq<u8>,
    now_secs: u64,
)
    requires
        store_laws::wf(a.store),
        store_laws::wf(b.store),
        store::peer_of(a.store, peer) matches Some(p) && p.nodeid == daemon::local_id(b),
        auth::peer_known(b.store, daemon::local_id(a)),
        caps.contains(Cap::Msg),
        store::token_of(a.store, at.id) is None,
        store::token_of(b.store, at.id) is None,
        signed.sig@.len() == 64,
        crypto::signature_valid(daemon::local_id(a), signed.claims_cbor@, signed.sig@),
        now_secs < auth::expiry(ttl_secs, at.now_secs),
    ensures
        ({
            let c = daemon::granted_claims(a, daemon::local_id(b), caps, ttl_secs, at);
            let granted = daemon::granted_reply(a, c, raw).state.store;
            let imported = daemon::import_reply(b, signed, Some(c), raw);
            let presented = peering::token_for(
                imported.state.store,
                daemon::local_id(a),
                daemon::local_id(b),
                now_secs,
            );
            &&& daemon::token_grant_reply(a, peer, caps, ttl_secs, at).next == NextV::Encode(c)
            &&& imported.events == seq![
                EventV::TokenListItem(daemon::claims_info(c)),
                EventV::Done,
            ]
            &&& presented matches Some(t) && c.exp <= t.exp
            &&& auth::refusal(
                signed,
                Some(c),
                daemon::local_id(a),
                daemon::local_id(b),
                Cap::Msg,
                granted,
                now_secs,
            ) is None
            &&& auth::refusal(
                signed,
                Some(c),
                daemon::local_id(a),
                daemon::local_id(b),
                Cap::Msg,
                store::token_revoked(granted, c.id),
                now_secs,
            ) == Some(AuthError::Revoked)
        }),
{
    let c = daemon::granted_claims(a, daemon::local_id(b), caps, ttl_secs, at);
    let row = auth::row_of(c, raw);
    store_laws::law_token_insert_then_revoke(a.store, row);
    store_laws::law_token_insert_then_revoke(b.store, row);
    let t = store::token_inserted(b.store, row);
    let known = queries::token_with_id(at.id);
    table::lemma_first_of_is_there(t.tokens, known);
    peering::law_presented_token_is_the_best(
        t,
        daemon::local_id(a),
        daemon::local_id(b),
        now_secs,
        row,
    );
}

/// What one install sends another arrives there as it was sent, and once, however often it is
/// delivered.
pub proof fn law_sent_message_arrives_once(
    a: DaemonV,
    b: DaemonV,
    peer: SelectorV,
    channel: Seq<char>,
    payload: Seq<u8>,
    at: MomentV,
    now_ms: u64,
    again_ms: u64,
)
    requires
        store::peer_of(a.store, peer) matches Some(p) && p.nodeid == daemon::local_id(b),
        store::last_message_seq(a.store, daemon::local_id(a), store::channel_key(channel))
            < u64::MAX,
        !store::already_seen(
            b.store,
            daemon::local_id(a),
            store::channel_key(channel),
            store::next_outbound(
                a.store,
                daemon::local_id(a),
                daemon::local_id(b),
                channel,
                payload,
                at.now_ms,
            ).seq,
        ),
    ensures
        ({
            let r = daemon::send_reply(a, peer, channel, payload, at);
            let m = store::next_outbound(
                a.store,
                daemon::local_id(a),
                daemon::local_id(b),
                channel,
                payload,
                at.now_ms,
            );
            let once = store::recorded(
                b.store,
                m.sender,
                m.channel,
                m.seq,
                m.payload,
                m.enqueued_at_ms,
                now_ms,
            );
            let got = MessageV {
                direction: Direction::In,
                peer_nodeid: daemon::local_id(a),
                delivered_at_ms: Some(now_ms),
                ..m
            };
            &&& r.events == seq![EventV::Done]
            &&& r.next == NextV::Wake(daemon::local_id(b))
            &&& store::pending_for(r.state.store, daemon::local_id(b)).contains(m)
            &&& m.payload == payload && m.channel == channel && m.enqueued_at_ms == at.now_ms
            &&& store::inbox(once, Some(daemon::local_id(a)), Some(channel), None).contains(got)
            &&& store::recorded(
                once,
                m.sender,
                m.channel,
                m.seq,
                m.payload,
                m.enqueued_at_ms,
                again_ms,
            ) == once
        }),
{
    let local = daemon::local_id(a);
    let remote = daemon::local_id(b);
    let m = store::next_outbound(a.store, local, remote, channel, payload, at.now_ms);
    store_laws::law_enqueued_is_pending(
        a.store,
        local,
        remote,
        channel,
        payload,
        at.now_ms,
        Seq::empty(),
    );
    store_laws::law_inbox_dedup(
        b.store,
        local,
        channel,
        m.seq,
        payload,
        at.now_ms,
        now_ms,
        payload,
        at.now_ms,
        again_ms,
    );
    let once = store::recorded(b.store, local, channel, m.seq, payload, at.now_ms, now_ms);
    let got = MessageV {
        direction: Direction::In,
        peer_nodeid: local,
        delivered_at_ms: Some(now_ms),
        ..m
    };
    assert(once.messages[b.store.messages.len() as int] == got);
    store_laws::law_inbox(once, Some(local), Some(channel), None, got);
}

// ----- who may do what -----

/// The bearer token that a request carries.
pub open spec fn token_of(req: IpcRequest) -> Option<Seq<char>> {
    match req {
        IpcRequest::Spawn { token, .. } => Some(token@),
        IpcRequest::AgentSend { token, .. } => Some(token@),
        IpcRequest::AgentRecv { token, .. } => Some(token@),
        IpcRequest::AgentKill { token, .. } => Some(token@),
        IpcRequest::SessionClose { token, .. } => Some(token@),
        IpcRequest::WhoAmI { token } => Some(token@),
        _ => None,
    }
}

/// Whether an answer is a refusal with the given code.
pub open spec fn refused_with(r: ReplyV, code: IpcErrorCode) -> bool {
    &&& r.events.len() == 1
    &&& r.events[0] matches EventV::Failed(e) && e.code == code
    &&& r.next is Done
}

/// A refused request changes nothing, and nothing is left to be done for it.
pub proof fn law_refusal_changes_nothing(s: DaemonV, req: IpcRequest, at: MomentV)
    requires
        dispatch::handled(s, req, at).events.len() > 0,
        dispatch::handled(s, req, at).events[0] is Failed,
    ensures
        dispatch::handled(s, req, at).state == s,
        dispatch::handled(s, req, at).events.len() == 1,
        dispatch::handled(s, req, at).next is Done,
{
    let r = dispatch::handled(s, req, at);
    match req {
        IpcRequest::AgentRecv { token, session, since_ms, follow, consume } => {
            if let Some(me) = agents::bearer(s, token@) {
                let rows = agents::shown_backlog(
                    s.store,
                    me,
                    crate::text::opt_text(session),
                    since_ms,
                    consume,
                );
                assert(r.events[0] == EventV::AgentBacklogEnd || r.events[0] == bus::shown(
                    rows[0],
                ));
            }
        },
        IpcRequest::PeerList { filter } => {
            lemma_items_are_peers(s, filter);
            let items = daemon::known_items(s, filter) + daemon::lan_items(s, filter);
            if items.len() > 0 {
                assert(r.events[0] == items[0]);
                assert(items[0] is PeerListItem);
            } else {
                assert(r.events[0] == EventV::PeerListEnd);
            }
        },
        _ => {},
    }
}

proof fn lemma_items_are_peers(s: DaemonV, f: crate::ipc::PeerFilter)
    ensures
        ({
            let items = daemon::known_items(s, f) + daemon::lan_items(s, f);
            forall|i: int| 0 <= i < items.len() ==> #[trigger] items[i] is PeerListItem
        }),
{
}

/// What only asks changes nothing.
pub proof fn law_questions_change_nothing(s: DaemonV, req: IpcRequest, at: MomentV)
    requires
        req is Status || req is NodeId || req is Ticket || req is PeerList || req is ConnList || req
            is TokenList || req is RecvSubscribe || req is GroupList || req is SessionList || req
            is AgentList || req is WhoAmI || req is AgentRecv,
    ensures
        dispatch::handled(s, req, at).state == s,
{
}

/// A request with a bearer token that belongs to no agent is refused as unauthorized.
pub proof fn law_unknown_bearer_is_refused(s: DaemonV, req: IpcRequest, at: MomentV)
    requires
        token_of(req) is Some,
        agents::bearer(s, token_of(req)->0) is None,
    ensures
        refused_with(dispatch::handled(s, req, at), IpcErrorCode::Unauthorized),
        dispatch::handled(s, req, at).state == s,
{
}

/// Only a prime may spawn, kill and close, and it may spawn in its own group alone.
pub proof fn law_only_the_prime_commands(s: DaemonV, req: IpcRequest, at: MomentV, me: AgentV)
    requires
        req is Spawn || req is AgentKill || req is SessionClose,
        agents::bearer(s, token_of(req)->0) == Some(me),
        me.role != "prime"@ || (req matches IpcRequest::Spawn { group, .. } && group@
            != me.group_name),
    ensures
        refused_with(dispatch::handled(s, req, at), IpcErrorCode::Unauthorized),
        dispatch::handled(s, req, at).state == s,
{
}

/// The prime's commands reach its own group alone: the agents and sessions of every other group
/// stay as they are, and whatever is to be ended is of the prime's group.
pub proof fn law_commands_stay_in_the_group(
    s: DaemonV,
    req: IpcRequest,
    at: MomentV,
    me: AgentV,
    group: Seq<char>,
    name: Seq<char>,
)
    requires
        req is AgentKill || req is SessionClose,
        agents::bearer(s, token_of(req)->0) == Some(me),
        group != me.group_name,
    ensures
        ({
            let r = dispatch::handled(s, req, at);
            &&& store::agent_of(r.state.store, group, name) == store::agent_of(s.store, group, name)
            &&& store::session_of(r.state.store, group, name) == store::session_of(
                s.store,
                group,
                name,
            )
            &&& r.next matches NextV::Kill { group, .. } ==> group == me.group_name
            &&& r.next matches NextV::Close { group, .. } ==> group == me.group_name
        }),
{
    match req {
        IpcRequest::AgentKill { token, agent } => {
            lemma_other_group_untouched(
                s.store,
                me.group_name,
                agent@,
                agent@,
                at.now_ms,
                group,
                name,
            );
        },
        IpcRequest::SessionClose { token, session, discard } => {
            if let Some(x) = store::session_of(s.store, me.group_name, session@) {
                lemma_other_group_untouched(
                    s.store,
                    me.group_name,
                    x.child_agent,
                    session@,
                    at.now_ms,
                    group,
                    name,
                );
            }
        },
        _ => {},
    }
}

proof fn lemma_other_group_untouched(
    s: StoreV,
    mine: Seq<char>,
    agent: Seq<char>,
    session: Seq<char>,
    now_ms: u64,
    group: Seq<char>,
    name: Seq<char>,
)
    requires
        group != mine,
    ensures
        ({
            let t = store::session_closed(
                store::status_set(s, mine, agent, "exited"@, None, now_ms),
                mine,
                session,
            );
            &&& store::agent_of(t, group, name) == store::agent_of(s, group, name)
            &&& store::session_of(t, group, name) == store::session_of(s, group, name)
        }),
{
    table::lemma_filter_unchanged(
        s.agents,
        queries::agent_named(group, name),
        queries::agent_named(mine, agent),
        queries::agent_with_status("exited"@, None, now_ms),
    );
    table::lemma_filter_unchanged(
        s.sessions,
        queries::session_named(group, name),
        queries::session_named(mine, session),
        queries::session_shut(),
    );
}

// ----- groups, children and sessions -----

/// A new group has a prime, and the token that is handed out belongs to it. The token has to be
/// fresh, and no agent may be left over from an earlier group of that name.
pub proof fn law_new_group_has_its_prime(s: DaemonV, name: Seq<char>, at: MomentV)
    requires
        store_laws::wf(s.store),
        !store::has_group(s.store, name),
        !store::agent_refused(s.store, agents::first_prime(name, at)),
    ensures
        ({
            let r = agents::group_new_reply(s, name, at);
            &&& store::has_group(r.state.store, name)
            &&& agents::bearer(r.state, at.token) == Some(agents::first_prime(name, at))
            &&& agents::who_am_i_reply(r.state, at.token).events == seq![
                EventV::WhoAmI(
                    crate::ipc::WhoAmIV {
                        group: name,
                        agent: "prime"@,
                        role: "prime"@,
                        session: None,
                    },
                ),
            ]
        }),
{
    let a = agents::first_prime(name, at);
    let s1 = store::group_created(s.store, name, at.now_ms);
    store_laws::law_group_created_wf(s.store, name, at.now_ms);
    store_laws::law_group_create_idempotent(s.store, name, at.now_ms, at.now_ms);
    store_laws::law_registered_agent_is_found(s1, a);
    reveal_strlit("child");
    reveal_strlit("prime");
    assert("child"@[0] != "prime"@[0]);
}

/// A group's name is given once.
pub proof fn law_group_name_is_given_once(
    s: DaemonV,
    name: Seq<char>,
    at: MomentV,
    later: MomentV,
)
    ensures
        ({
            let r = agents::group_new_reply(s, name, at);
            refused_with(agents::group_new_reply(r.state, name, later), IpcErrorCode::BadRequest)
        }),
{
    store_laws::law_group_create_idempotent(s.store, name, at.now_ms, at.now_ms);
}

/// Once a spawned session is registered, the child's token belongs to the child, the session joins
/// the child with the agent that asked for it, and the name is taken.
pub proof fn law_spawned_child_is_known(
    s: DaemonV,
    o: OrderV,
    ws: WorkspaceV,
    at: MomentV,
    token: Seq<char>,
    again: OrderV,
)
    requires
        store_laws::wf(s.store),
        agents::provisioned_reply(s, o, ws, at).next is Launch,
        again.group == o.group,
        again.session == o.session,
    ensures
        ({
            let r = agents::provisioned_reply(s, o, ws, at);
            &&& agents::bearer(r.state, at.token) == Some(agents::child_of(o, at))
            &&& store::session_of(r.state.store, o.group, o.session) == Some(
                agents::session_of_order(o, ws, at),
            )
            &&& agents::spawn_reply(r.state, token, again).next is Done
            &&& agents::spawn_reply(r.state, token, again).state == r.state
        }),
{
    let a = agents::child_of(o, at);
    let row = agents::session_of_order(o, ws, at);
    store_laws::law_registered_agent_is_found(s.store, a);
    store_laws::law_agent_registered_wf(s.store, a);
    store_laws::law_session_create_then_close(store::agent_registered(s.store, a), row);
}

/// A spawn that does not come to the launch of its harness leaves the workspace to be undone, and
/// makes no session. A launch that fails leaves the workspace to be undone too; the session that was
/// made for it stays, and so do all others.
pub proof fn law_failed_spawn_is_undone(
    s: DaemonV,
    o: OrderV,
    ws: WorkspaceV,
    at: MomentV,
    l: LaunchV,
    reason: Seq<char>,
)
    ensures
        agents::provisioned_reply(s, o, ws, at).next is Launch || (
        agents::provisioned_reply(s, o, ws, at).next == agents::undo_of(o, ws)
            && agents::provisioned_reply(s, o, ws, at).state.store.sessions == s.store.sessions),
        agents::launch_failed_reply(s, l, reason, at.now_ms).next == agents::undo_of(
            l.order,
            l.workspace,
        ),
        agents::launch_failed_reply(s, l, reason, at.now_ms).state.store.sessions
            == s.store.sessions,
{
}

/// A child that was killed counts as exited, and its session as closed.
pub proof fn law_killed_agent_has_exited(
    s: DaemonV,
    token: Seq<char>,
    agent: Seq<char>,
    now_ms: u64,
    me: AgentV,
)
    requires
        agents::bearer(s, token) == Some(me),
        agents::agent_kill_reply(s, token, agent, now_ms).next is Kill,
    ensures
        ({
            let t = agents::agent_kill_reply(s, token, agent, now_ms).state.store;
            &&& agents::status_of(t, me.group_name, agent) == Some("exited"@)
            &&& store::session_of(t, me.group_name, agent) matches Some(x) ==> x.status
                == "closed"@
        }),
{
    lemma_ended(s.store, me.group_name, agent, agent, now_ms);
}

/// A session that was closed is closed, its child counts as exited, and its name stays taken.
pub proof fn law_closed_session_stays(
    s: DaemonV,
    token: Seq<char>,
    session: Seq<char>,
    discard: bool,
    now_ms: u64,
    me: AgentV,
    by: Seq<char>,
    again: OrderV,
)
    requires
        agents::bearer(s, token) == Some(me),
        agents::session_close_reply(s, token, session, discard, now_ms).next is Close,
        again.group == me.group_name,
        again.session == session,
    ensures
        ({
            let r = agents::session_close_reply(s, token, session, discard, now_ms);
            let x = store::session_of(s.store, me.group_name, session)->0;
            &&& store::session_of(r.state.store, me.group_name, session) == Some(
                SessionV { status: "closed"@, ..x },
            )
            &&& store::agent_of(r.state.store, me.group_name, x.child_agent) matches Some(a)
                ==> a.status == "exited"@
            &&& agents::spawn_reply(r.state, by, again).next is Done
        }),
{
    let x = store::session_of(s.store, me.group_name, session)->0;
    lemma_ended(s.store, me.group_name, x.child_agent, session, now_ms);
}

proof fn lemma_ended(
    s: StoreV,
    group: Seq<char>,
    agent: Seq<char>,
    session: Seq<char>,
    now_ms: u64,
)
    ensures
        ({
            let t = store::session_closed(
                store::status_set(s, group, agent, "exited"@, None, now_ms),
                group,
                session,
            );
            &&& store::agent_of(t, group, agent) is Some == store::agent_of(
                s,
                group,
                agent,
            ) is Some
            &&& store::agent_of(t, group, agent) matches Some(a) ==> a.status == "exited"@
            &&& store::session_of(t, group, session) == match store::session_of(
                s,
                group,
                session,
            ) {
                Some(x) => Some(SessionV { status: "closed"@, ..x }),
                None => None,
            }
        }),
{
    let p = queries::agent_named(group, agent);
    let f = queries::agent_with_status("exited"@, None, now_ms);
    table::lemma_first_changed(s.agents, p, p, f);
    lemma_first_is_of_its_kind(s.agents, p);
    let q = queries::session_named(group, session);
    table::lemma_first_changed(s.sessions, q, q, queries::session_shut());
    lemma_first_is_of_its_kind(s.sessions, q);
}

proof fn lemma_first_is_of_its_kind<A>(s: Seq<A>, p: spec_fn(A) -> bool)
    ensures
        table::first_of(s, p) matches Some(a) ==> s.contains(a) && p(a),
{
    if s.filter(p).len() > 0 {
        table::lemma_filter_contains(s, p, s.filter(p)[0]);
    }
}

// ----- the bus -----

/// A message into a session goes to the other endpoint of it, in the sender's group, and is unread
/// there.
pub proof fn law_message_reaches_the_other_end(
    s: DaemonV,
    token: Seq<char>,
    session: Seq<char>,
    kind: AgentMsgKind,
    payload: Seq<u8>,
    now_ms: u64,
    me: AgentV,
)
    requires
        s.store.retention > 0,
        agents::bearer(s, token) == Some(me),
        agents::agent_send_reply(s, token, session, kind, payload, now_ms).events == seq![
            EventV::Done,
        ],
    ensures
        ({
            let r = agents::agent_send_reply(s, token, session, kind, payload, now_ms);
            let x = store::session_of(s.store, me.group_name, session)->0;
            let to = if me.name == x.prime_agent {
                x.child_agent
            } else {
                x.prime_agent
            };
            let m = bus::row_for(
                s.store,
                me.group_name,
                session,
                me.name,
                to,
                kind,
                payload,
                now_ms,
            );
            &&& me.name == x.prime_agent || me.name == x.child_agent
            &&& r.next == NextV::Publish(bus::published(m, kind))
            &&& store::backlog(r.state.store, me.group_name, to, None, None, true).contains(m)
            &&& store::backlog(r.state.store, me.group_name, to, Some(session), None, true)
                .contains(m)
            &&& m.payload == payload && m.from_agent == me.name
        }),
{
    let r = agents::agent_send_reply(s, token, session, kind, payload, now_ms);
    assert(r.events[0] == EventV::Done);
    let x = store::session_of(s.store, me.group_name, session)->0;
    let to = agents::other_end(x, me.name)->0;
    store_laws::law_bus_sent_is_unread(
        s.store,
        me.group_name,
        session,
        me.name,
        to,
        bus::kind_name(kind),
        payload,
        now_ms,
    );
}

/// Whoever asks for the messages of a peer that is not there is shown none: neither of those that have
/// come, nor of those that come.
pub proof fn law_unknown_sender_shows_nothing(
    s: DaemonV,
    name: Seq<char>,
    channel: Option<Seq<char>>,
    since_ms: Option<u64>,
    follow: bool,
    e: EventV,
)
    requires
        store::peer_of(s.store, SelectorV::Name(name)) is None,
    ensures
        ({
            let r = daemon::recv_reply(s, Some(SelectorV::Name(name)), channel, since_ms, follow);
            &&& r.events == seq![EventV::RecvBacklogEnd]
            &&& r.next matches NextV::FollowInbox { peer, channel: c } ==> !peering::follows(
                e,
                peer,
                c,
            )
        }),
{
    let r = daemon::recv_reply(s, Some(SelectorV::Name(name)), channel, since_ms, follow);
    assert(r.events =~= seq![EventV::RecvBacklogEnd]);
}

/// A listing by session shows no agent but the ends of sessions of that name, in whatever group they
/// are, or in the one that is asked for.
pub proof fn law_listing_is_scoped_to_the_session(
    s: DaemonV,
    group: Option<Seq<char>>,
    session: Seq<char>,
    i: int,
)
    requires
        0 <= i < agents::agent_list_reply(s, group, Some(session)).events.len(),
    ensures
        agents::agent_list_reply(s, group, Some(session)).events[i] matches EventV::AgentListItem(a)
            ==> exists|x: SessionV| #[trigger]
            s.store.sessions.contains(x) && x.name == session && x.group_name == a.group && (
            group matches Some(g) ==> x.group_name == g) && (x.prime_agent == a.name
                || x.child_agent == a.name),
{
    let r = agents::agent_list_reply(s, group, Some(session));
    if let EventV::AgentListItem(a) = r.events[i] {
        let rows = if let Some(g) = group {
            match store::session_of(s.store, g, session) {
                Some(x) => seq![x],
                None => Seq::empty(),
            }
        } else {
            store::sessions_called(s.store, session)
        };
        if let Some(g) = group {
            let named = queries::session_named(g, session);
            table::lemma_first_of_is_there(s.store.sessions, named);
            assert(rows.drop_last() =~= Seq::empty());
            assert(agents::ends_of(s.store, Seq::empty()) =~= Seq::empty());
            assert(agents::ends_of(s.store, rows) =~= agents::session_ends(s.store, rows[0]));
        }
        let k = lemma_end_of_a_session(s.store, rows, i);
        let x = rows[k];
        if group is None {
            let p = queries::session_called(session);
            let hits = s.store.sessions.filter(p);
            assert(rows.contains(x));
            table::lemma_stable_order_members(hits, queries::sessions_by_age(), x);
            table::lemma_filter_contains(s.store.sessions, p, x);
        }
        assert(s.store.sessions.contains(x));
    }
}

proof fn lemma_end_of_a_session(s: StoreV, rows: Seq<SessionV>, i: int) -> (k: int)
    requires
        0 <= i < agents::ends_of(s, rows).len(),
    ensures
        0 <= k < rows.len(),
        agents::ends_of(s, rows)[i].group_name == rows[k].group_name,
        agents::ends_of(s, rows)[i].name == rows[k].prime_agent || agents::ends_of(s, rows)[i].name
            == rows[k].child_agent,
    decreases rows.len(),
{
    let rest = agents::ends_of(s, rows.drop_last());
    if i < rest.len() {
        lemma_end_of_a_session(s, rows.drop_last(), i)
    } else {
        let x = rows.last();
        table::lemma_first_of_is_there(
            s.agents,
            queries::agent_named(x.group_name, x.prime_agent),
        );
        table::lemma_first_of_is_there(
            s.agents,
            queries::agent_named(x.group_name, x.child_agent),
        );
        rows.len() - 1
    }
}

/// A reader is shown only messages to itself in its own group, and of one session where it asks for
/// one.
pub proof fn law_readers_see_their_own(
    s: StoreV,
    me: AgentV,
    session: Option<Seq<char>>,
    since_ms: Option<u64>,
    consume: bool,
    i: int,
)
    requires
        0 <= i < agents::shown_backlog(s, me, session, since_ms, consume).len(),
    ensures
        ({
            let m = agents::shown_backlog(s, me, session, since_ms, consume)[i];
            &&& s.bus.contains(m)
            &&& m.group_name == me.group_name
            &&& m.to_agent == me.name
            &&& session matches Some(x) ==> m.session_name == x
        }),
{
    let since = if consume {
        None
    } else {
        since_ms
    };
    let p = queries::bus_backlog(me.group_name, me.name, session, since, consume);
    let all = store::backlog(s, me.group_name, me.name, session, since, consume);
    let m = agents::shown_backlog(s, me, session, since_ms, consume)[i];
    assert(all[i] == m);
    assert(all.contains(m));
    table::lemma_stable_order_members(s.bus.filter(p), queries::bus_by_time(), m);
    table::lemma_filter_contains(s.bus, p, m);
}

/// A consuming read goes on where the last one stopped: where the first of the messages that it shows
/// were sent and marked, exactly these are read, and the next one starts with the first that was
/// not sent.
pub proof fn law_reading_resumes(
    s: DaemonV,
    token: Seq<char>,
    session: Option<Seq<char>>,
    follow: bool,
    me: AgentV,
    sent: int,
    times: Seq<u64>,
)
    requires
        store_laws::wf(s.store),
        agents::bearer(s, token) == Some(me),
        0 <= sent <= agents::shown_backlog(s.store, me, session, None, true).len(),
        times.len() == sent,
    ensures
        ({
            let r = agents::agent_recv_reply(s, token, session, None, follow, true);
            let unread = store::backlog(s.store, me.group_name, me.name, session, None, true);
            let t = after_marks(s, r, sent, times);
            &&& agents::bearer(t, token) == Some(me)
            &&& store::backlog(t.store, me.group_name, me.name, session, None, true)
                == unread.skip(sent)
            &&& agents::shown_backlog(t.store, me, session, None, true) == table::at_most(
                unread.skip(sent),
                daemon::BACKLOG_LIMIT as int,
            )
        }),
{
    let unread = store::backlog(s.store, me.group_name, me.name, session, None, true);
    let shown = agents::shown_backlog(s.store, me, session, None, true);
    let marks = agents::marks_of(shown).take(sent);
    let t = agents::marked(s.store, me.group_name, marks, times);
    lemma_marked_keeps_agents(s.store, me.group_name, marks, times);
    let p = queries::bus_backlog(me.group_name, me.name, session, None, true);
    let q = |m: BusV| !is_marked(marks, m);
    let le = queries::bus_by_time();
    assert forall|i: int| 0 <= i < t.bus.len() implies p(#[trigger] t.bus[i]) == (p(s.store.bus[i])
        && q(s.store.bus[i])) && (p(t.bus[i]) ==> t.bus[i] == s.store.bus[i]) by {
        lemma_marked_row(s.store, me.group_name, marks, times, i);
    }
    table::lemma_filter_fewer(s.store.bus, t.bus, p, q);
    let all = s.store.bus.filter(p);
    table::lemma_stable_order_filter(all, le, q);
    table::law_stable_order(all, le);
    table::lemma_unique_filter(s.store.bus, store_laws::bus_key(), p);
    table::lemma_stable_order_unique(all, le, store_laws::bus_key());
    assert(unread == table::stable_order(all, le));
    assert forall|i: int| 0 <= i < unread.len() implies q(#[trigger] unread[i]) == (sent <= i) by {
        assert(unread.contains(unread[i]));
        table::lemma_stable_order_members(all, le, unread[i]);
        table::lemma_filter_contains(s.store.bus, p, unread[i]);
        if i < sent {
            assert(marks[i] == MarkV { session: unread[i].session_name, seq: unread[i].seq });
        } else {
            assert forall|k: int| 0 <= k < marks.len() implies !same_place(
                #[trigger] marks[k],
                unread[i],
            ) by {
                assert(marks[k] == MarkV { session: unread[k].session_name, seq: unread[k].seq });
                assert(unread.contains(unread[k]));
                table::lemma_stable_order_members(all, le, unread[k]);
                table::lemma_filter_contains(s.store.bus, p, unread[k]);
                assert((store_laws::bus_key())(unread[k]) != (store_laws::bus_key())(unread[i]));
            }
        }
    }
    table::lemma_filter_rest(unread, q, sent);
}

/// Whether a place is that of a message.
spec fn same_place(k: MarkV, m: BusV) -> bool {
    m.session_name == k.session && m.seq == k.seq
}

/// Whether a message is among the marked ones.
spec fn is_marked(marks: Seq<MarkV>, m: BusV) -> bool {
    exists|k: int| 0 <= k < marks.len() && same_place(#[trigger] marks[k], m)
}

/// The state once the first `sent` messages of a reading were sent, and marked at the given times.
pub open spec fn after_marks(s: DaemonV, r: ReplyV, sent: int, times: Seq<u64>) -> DaemonV {
    match r.next {
        NextV::ReadBus(b) => daemon::with_store(
            s,
            agents::marked(s.store, b.group, b.marks.take(sent), times),
        ),
        _ => s,
    }
}

/// A consuming read takes the unread messages: once it has shown them all, the next one shows none.
pub proof fn law_consuming_read_drains(
    s: DaemonV,
    token: Seq<char>,
    session: Option<Seq<char>>,
    follow: bool,
    times: Seq<u64>,
    me: AgentV,
)
    requires
        store_laws::wf(s.store),
        agents::bearer(s, token) == Some(me),
        store::backlog(s.store, me.group_name, me.name, session, None, true).len()
            <= daemon::BACKLOG_LIMIT,
        times.len() == store::backlog(s.store, me.group_name, me.name, session, None, true).len(),
    ensures
        ({
            let r = agents::agent_recv_reply(s, token, session, None, follow, true);
            let t = after_marks(s, r, times.len() as int, times);
            agents::agent_recv_reply(t, token, session, None, false, true).events
                == seq![EventV::AgentBacklogEnd]
        }),
{
    let unread = store::backlog(s.store, me.group_name, me.name, session, None, true);
    law_reading_resumes(s, token, session, follow, me, unread.len() as int, times);
    let r = agents::agent_recv_reply(s, token, session, None, follow, true);
    let t = after_marks(s, r, times.len() as int, times);
    assert(unread.skip(unread.len() as int) =~= Seq::empty());
    assert(agents::agent_recv_reply(t, token, session, None, false, true).events
        =~= seq![EventV::AgentBacklogEnd]);
}

/// Reading changes nothing about the full history: it is replayed as it would have been before,
/// however much of it was marked as read.
pub proof fn law_replay_is_complete(
    s: DaemonV,
    token: Seq<char>,
    group: Seq<char>,
    marks: Seq<MarkV>,
    times: Seq<u64>,
    session: Option<Seq<char>>,
    since_ms: Option<u64>,
    follow: bool,
)
    requires
        times.len() == marks.len(),
    ensures
        ({
            let t = daemon::with_store(s, agents::marked(s.store, group, marks, times));
            agents::agent_recv_reply(t, token, session, since_ms, follow, false).events
                == agents::agent_recv_reply(s, token, session, since_ms, follow, false).events
        }),
{
    let t = agents::marked(s.store, group, marks, times);
    lemma_marked_keeps_agents(s.store, group, marks, times);
    if let Some(me) = agents::bearer(s, token) {
        let unread = |m: BusV| BusV { consumed_at_ms: None, ..m };
        let p = queries::bus_backlog(me.group_name, me.name, session, since_ms, false);
        let le = queries::bus_by_time();
        assert forall|i: int| 0 <= i < t.bus.len() implies unread(#[trigger] t.bus[i]) == unread(
            s.store.bus[i],
        ) by {
            lemma_marked_row(s.store, group, marks, times, i);
        }
        assert(t.bus.map_values(unread) =~= s.store.bus.map_values(unread));
        table::lemma_filter_map(t.bus, p, unread);
        table::lemma_filter_map(s.store.bus, p, unread);
        table::lemma_stable_order_map(t.bus.filter(p), le, unread);
        table::lemma_stable_order_map(s.store.bus.filter(p), le, unread);
        let a = table::stable_order(s.store.bus.filter(p), le);
        let b = table::stable_order(t.bus.filter(p), le);
        assert(a.map_values(unread) == b.map_values(unread));
        assert(a.map_values(unread).len() == a.len());
        assert(b.map_values(unread).len() == b.len());
        let limit = daemon::BACKLOG_LIMIT as int;
        let show = |m: BusV| bus::shown(m);
        assert forall|i: int| 0 <= i < table::at_most(a, limit).len() implies show(
            #[trigger] table::at_most(a, limit)[i],
        ) == show(table::at_most(b, limit)[i]) by {
            assert(a.map_values(unread)[i] == b.map_values(unread)[i]);
        }
        assert(table::at_most(a, limit).map_values(show) =~= table::at_most(b, limit).map_values(
            show,
        ));
    }
}

proof fn lemma_marked_keeps_agents(
    s: StoreV,
    group: Seq<char>,
    marks: Seq<MarkV>,
    times: Seq<u64>,
)
    ensures
        agents::marked(s, group, marks, times).agents == s.agents,
        agents::marked(s, group, marks, times).bus.len() == s.bus.len(),
    decreases marks.len(),
{
    if marks.len() > 0 {
        lemma_marked_keeps_agents(s, group, marks.drop_last(), times.drop_last());
    }
}

proof fn lemma_marked_row(
    s: StoreV,
    group: Seq<char>,
    marks: Seq<MarkV>,
    times: Seq<u64>,
    i: int,
)
    requires
        0 <= i < s.bus.len(),
    ensures
        ({
            let m = agents::marked(s, group, marks, times).bus[i];
            &&& m == BusV { consumed_at_ms: m.consumed_at_ms, ..s.bus[i] }
            &&& m.consumed_at_ms is None == (s.bus[i].consumed_at_ms is None && !(s.bus[i].group_name
                == group && is_marked(marks, s.bus[i])))
        }),
    decreases marks.len(),
{
    lemma_marked_keeps_agents(s, group, marks, times);
    if marks.len() > 0 {
        let rest = marks.drop_last();
        lemma_marked_keeps_agents(s, group, rest, times.drop_last());
        lemma_marked_row(s, group, rest, times.drop_last(), i);
        let x = s.bus[i];
        assert(is_marked(marks, x) == (is_marked(rest, x) || same_place(marks.last(), x))) by {
            assert(same_place(marks.last(), x) == same_place(marks[marks.len() - 1], x));
            if is_marked(rest, x) {
                let k = choose|k: int| 0 <= k < rest.len() && same_place(#[trigger] rest[k], x);
                assert(marks[k] == rest[k]);
            }
            if is_marked(marks, x) && !same_place(marks.last(), x) {
                let k = choose|k: int| 0 <= k < marks.len() && same_place(#[trigger] marks[k], x);
                assert(rest[k] == marks[k]);
            }
        }
    }
}

} // verus!
