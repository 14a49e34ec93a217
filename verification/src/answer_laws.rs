//! Which answer a request gets, and what a refusal says.

use vstd::prelude::*;

use crate::agents;
use crate::auth;
use crate::auth::AuthError;
use crate::codec;
use crate::crypto;
use crate::daemon;
use crate::daemon::DaemonV;
use crate::daemon::LaunchV;
use crate::daemon::MomentV;
use crate::daemon::NextV;
use crate::daemon::OrderV;
use crate::daemon::ReplyV;
use crate::dispatch;
use crate::ipc::EventV;
use crate::ipc::IpcErrorCode;
use crate::ipc::IpcRequest;
use crate::ipc::PeerFilter;
use crate::ipc::PeerInfoV;
use crate::ipc::SelectorV;
use crate::queries;
use crate::rows::AgentV;
use crate::rows::PeerV;
use crate::rows::SessionV;
use crate::spawn_laws;
use crate::store;
use crate::store::StoreV;
use crate::store_laws;
use crate::table;
use crate::text;
use crate::ticket;
use crate::token::ClaimsV;
use crate::token::SignedToken;
use crate::workspace::WorkspaceV;

verus! {

/// A request about peers, tokens and links gets the answer that it asks for, to exactly what it gives.
pub proof fn law_peer_requests_get_their_answers(s: DaemonV, req: IpcRequest, at: MomentV)
    ensures
        ({
            let r = dispatch::handled(s, req, at);
            &&& req is Ticket ==> r.state == s && r.events.len() == 0 && r.next is Ticket
            &&& req is PeerAdd ==> r == daemon::peer_add_reply(
                s,
                req->nodeid@,
                req->PeerAdd_name@,
                text::opt_bytes(req->addr_blob),
                at.now_ms,
            )
            &&& req is PeerRm ==> r == daemon::peer_rm_reply(s, req->PeerRm_selector@)
            &&& req is PeerList ==> r == daemon::peer_list_reply(s, req->filter)
            &&& req is ConnList ==> r == daemon::conn_list_reply(s)
            &&& req is ConnClose ==> spawn_laws::refuses(r, s, IpcErrorCode::Unimplemented)
            &&& req is TokenGrant ==> r == daemon::token_grant_reply(
                s,
                req->TokenGrant_peer@,
                req->caps@,
                req->ttl_secs,
                at,
            )
            &&& req is TokenImport ==> r.state == s && r.events.len() == 0 && r.next
                == NextV::Decode(req->raw@)
            &&& req is TokenList ==> r == daemon::token_list_reply(s)
            &&& req is TokenRevoke ==> r == daemon::token_revoke_reply(s, req->id@)
            &&& req is Send ==> r == daemon::send_reply(
                s,
                req->Send_peer@,
                req->Send_channel@,
                req->Send_payload@,
                at,
            )
        }),
{
}

/// A request about groups, sessions and agents gets the answer that it asks for, to exactly what it
/// gives.
pub proof fn law_agent_requests_get_their_answers(s: DaemonV, req: IpcRequest, at: MomentV)
    ensures
        ({
            let r = dispatch::handled(s, req, at);
            &&& req is GroupNew ==> r == agents::group_new_reply(s, req->GroupNew_name@, at)
            &&& req is GroupList ==> r == agents::group_list_reply(s)
            &&& req is SessionList ==> r == agents::session_list_reply(s, req->SessionList_group@)
            &&& req is AgentList ==> r == agents::agent_list_reply(
                s,
                text::opt_text(req->AgentList_group),
                text::opt_text(req->AgentList_session),
            )
            &&& req is AgentSend ==> r == agents::agent_send_reply(
                s,
                req->AgentSend_token@,
                req->AgentSend_session@,
                req->kind,
                req->AgentSend_payload@,
                at.now_ms,
            )
            &&& req is AgentRecv ==> r == agents::agent_recv_reply(
                s,
                req->AgentRecv_token@,
                text::opt_text(req->AgentRecv_session),
                req->AgentRecv_since_ms,
                req->AgentRecv_follow,
                req->consume,
            )
            &&& req is AgentKill ==> r == agents::agent_kill_reply(
                s,
                req->AgentKill_token@,
                req->agent@,
                at.now_ms,
            )
            &&& req is SessionClose ==> r == agents::session_close_reply(
                s,
                req->SessionClose_token@,
                req->SessionClose_session@,
                req->discard,
                at.now_ms,
            )
            &&& req is WhoAmI ==> r == agents::who_am_i_reply(s, req->WhoAmI_token@)
        }),
{
}

/// Whether the answer says why it is a refusal, and in these words.
pub open spec fn says(r: ReplyV, code: IpcErrorCode, message: Seq<char>) -> bool {
    &&& r.events.len() == 1
    &&& r.events[0] matches EventV::Failed(e) && e.code == code && e.message == message
}

/// What is refused about peers and tokens is refused in words that say why.
pub proof fn law_peer_refusals_say_why(
    s: DaemonV,
    sel: SelectorV,
    channel: Seq<char>,
    payload: Seq<u8>,
    caps: Seq<crate::token::Cap>,
    ttl_secs: Option<u64>,
    id: Seq<u8>,
    at: MomentV,
    address: Seq<u8>,
    reason: Seq<char>,
)
    ensures
        store::peer_of(s.store, sel) is None ==> says(
            daemon::send_reply(s, sel, channel, payload, at),
            IpcErrorCode::NotFound,
            "peer not found"@,
        ),
        store::peer_of(s.store, sel) is None ==> says(
            daemon::token_grant_reply(s, sel, caps, ttl_secs, at),
            IpcErrorCode::NotFound,
            "peer not found"@,
        ),
        daemon::peer_rm_reply(s, sel).events[0] is Failed ==> says(
            daemon::peer_rm_reply(s, sel),
            IpcErrorCode::NotFound,
            "no such peer"@,
        ),
        daemon::token_revoke_reply(s, id).events[0] is Failed ==> says(
            daemon::token_revoke_reply(s, id),
            IpcErrorCode::NotFound,
            "no such token"@,
        ),
        says(
            daemon::undecodable_reply(s, reason),
            IpcErrorCode::BadRequest,
            "decode signed token: "@ + reason,
        ),
        says(
            daemon::ticketed(s, None),
            IpcErrorCode::Internal,
            "ticket CBOR encode failed"@,
        ),
        ({
            let r = daemon::ticketed(s, Some(address));
            &&& r.state == s && r.next is Done
            &&& r.events == seq![EventV::TicketValue(ticket::ticket_text(address))]
        }),
{
}

/// What keeps a token from being imported is said: that it cannot be read or is not signed by its
/// issuer, that it is for another node, or that its issuer is not known.
pub proof fn law_import_refusals_say_why(
    s: DaemonV,
    signed: SignedToken,
    c: ClaimsV,
    raw: Seq<u8>,
)
    ensures
        says(
            daemon::import_reply(s, signed, None, raw),
            IpcErrorCode::Unauthorized,
            "verify token signature: "@ + "malformed claims"@,
        ),
        ({
            let r = daemon::import_reply(s, signed, Some(c), raw);
            let signed_well = signed.sig@.len() == 64 && crypto::signature_valid(
                c.iss,
                signed.claims_cbor@,
                signed.sig@,
            );
            &&& !signed_well ==> says(
                r,
                IpcErrorCode::Unauthorized,
                "verify token signature: "@ + "bad signature"@,
            )
            &&& signed_well && c.sub != crypto::ed25519_public(s.secret) ==> says(
                r,
                IpcErrorCode::BadRequest,
                "token subject is not this install"@,
            )
            &&& signed_well && c.sub == crypto::ed25519_public(s.secret) && store::peer_of(
                s.store,
                SelectorV::NodeId(c.iss),
            ) is None ==> says(r, IpcErrorCode::BadRequest, "token issuer is not a known peer"@)
        }),
{
}

/// Why a token is not accepted is said in words, with the moments and the node that it is about.
pub proof fn law_token_errors_say_why(e: AuthError)
    ensures
        e is BadSignature ==> auth::auth_error_text(e) == "bad signature"@,
        e is BadClaims ==> auth::auth_error_text(e) == "malformed claims"@,
        e is Expired ==> auth::auth_error_text(e) == "token expired (exp="@ + text::decimal_text(
            e->exp as nat,
        ) + ", now="@ + text::decimal_text(e->now as nat) + ")"@,
        e is SubjectMismatch ==> auth::auth_error_text(e)
            == "subject mismatch: token.sub != initiator"@,
        e is Revoked ==> auth::auth_error_text(e) == "token revoked"@,
        e is MissingCap ==> auth::auth_error_text(e) == "missing required capability: "@ + "msg"@,
        e is NotForUs ==> auth::auth_error_text(e) == "issuer pubkey is not the local identity"@,
        e is PeerNotKnown ==> auth::auth_error_text(e) == "peer not authorized: "@
            + codec::hex_text(e->PeerNotKnown_0@),
{
}

/// What is refused to agents is refused in words that say why, and names what is taken.
pub proof fn law_agent_refusals_say_why(s: DaemonV, req: IpcRequest, at: MomentV, me: AgentV)
    requires
        req is AgentSend || req is Spawn || req is AgentKill || req is SessionClose,
    ensures
        ({
            let r = dispatch::handled(s, req, at);
            let token = match req {
                IpcRequest::AgentSend { token, .. } => token@,
                IpcRequest::Spawn { token, .. } => token@,
                IpcRequest::AgentKill { token, .. } => token@,
                IpcRequest::SessionClose { token, .. } => token@,
                _ => Seq::empty(),
            };
            let known = agents::bearer(s, token) == Some(me);
            let group = me.group_name;
            &&& agents::bearer(s, token) is None ==> says(
                r,
                IpcErrorCode::Unauthorized,
                "unknown or invalid wt token"@,
            )
            &&& known && req is AgentSend && store::session_of(
                s.store,
                group,
                req->AgentSend_session@,
            ) is None ==> says(r, IpcErrorCode::NotFound, "no such session"@)
            &&& known && req is AgentSend && (store::session_of(
                s.store,
                group,
                req->AgentSend_session@,
            ) matches Some(x) && x.prime_agent != me.name && x.child_agent != me.name) ==> says(
                r,
                IpcErrorCode::BadRequest,
                "sender is not a participant of this session"@,
            )
            &&& known && req is Spawn && (me.role != "prime"@ || group != req->Spawn_group@)
                ==> says(r, IpcErrorCode::Unauthorized, "spawn requires the group's prime token"@)
            &&& known && req is Spawn && me.role == "prime"@ && group == req->Spawn_group@
                && r.events.len() > 0 ==> says(
                r,
                IpcErrorCode::BadRequest,
                "session '"@ + req->Spawn_session@ + "' already exists in group '"@ + group + "'"@,
            )
            &&& known && req is AgentKill && me.role != "prime"@ ==> says(
                r,
                IpcErrorCode::Unauthorized,
                "only the prime may kill agents"@,
            )
            &&& known && req is AgentKill && me.role == "prime"@ && store::agent_of(
                s.store,
                group,
                req->agent@,
            ) is None ==> says(r, IpcErrorCode::NotFound, "no such agent"@)
            &&& known && req is SessionClose && me.role != "prime"@ ==> says(
                r,
                IpcErrorCode::Unauthorized,
                "only the prime may close sessions"@,
            )
            &&& known && req is SessionClose && me.role == "prime"@ && store::session_of(
                s.store,
                group,
                req->SessionClose_session@,
            ) is None ==> says(r, IpcErrorCode::NotFound, "no such session"@)
        }),
{
}

/// What keeps a group or a session from being made is said, with the name that is taken or the reason
/// that was found.
pub proof fn law_making_says_why_not(
    s: DaemonV,
    name: Seq<char>,
    o: OrderV,
    ws: WorkspaceV,
    at: MomentV,
    l: LaunchV,
    reason: Seq<char>,
)
    ensures
        agents::group_new_reply(s, name, at).events[0] is Failed ==> says(
            agents::group_new_reply(s, name, at),
            IpcErrorCode::BadRequest,
            "group '"@ + name + "' already exists"@,
        ),
        agents::not_provisioned_reply(s, reason).state == s,
        agents::not_provisioned_reply(s, reason).next is Done,
        says(
            agents::not_provisioned_reply(s, reason),
            IpcErrorCode::BadRequest,
            "workspace provisioning failed: "@ + reason,
        ),
        !(agents::provisioned_reply(s, o, ws, at).next is Launch) ==> says(
            agents::provisioned_reply(s, o, ws, at),
            IpcErrorCode::BadRequest,
            "session '"@ + o.session + "' already exists in group '"@ + o.group + "'"@,
        ),
        says(
            agents::launch_failed_reply(s, l, reason, at.now_ms),
            IpcErrorCode::Internal,
            "harness spawn failed: "@ + reason,
        ),
{
}

/// Whether an event lists a peer that is in the registry.
pub open spec fn of_registry(e: EventV) -> bool {
    e matches EventV::PeerListItem(i) && i.source is Manual
}

/// The known peers are listed before those that are only seen, and in the order of their names.
pub proof fn law_peers_are_listed_by_name(s: DaemonV, f: PeerFilter, i: int, j: int)
    requires
        0 <= i < j,
        j < daemon::peer_list_reply(s, f).events.len() - 1,
        of_registry(daemon::peer_list_reply(s, f).events[j]),
    ensures
        of_registry(daemon::peer_list_reply(s, f).events[i]),
        text::text_le(
            daemon::peer_list_reply(s, f).events[i]->PeerListItem_0.name,
            daemon::peer_list_reply(s, f).events[j]->PeerListItem_0.name,
        ),
{
    let r = daemon::peer_list_reply(s, f);
    let le = queries::peers_by_name();
    let rows = table::stable_order(s.store.peers, le);
    let tell = |q: PeerV| daemon::known_info(q, s.conns);
    let infos = rows.map_values(tell);
    let ok = |x: PeerInfoV| daemon::filter_ok(f, x);
    let shown = infos.filter(ok);
    let known = daemon::known_items(s, f);
    let lan = daemon::lan_items(s, f);
    assert(known == shown.map_values(|x: PeerInfoV| EventV::PeerListItem(x)));
    assert forall|a: PeerV, b: PeerV| #[trigger] le(a, b) || le(b, a) by {
        text::lemma_text_order(a.name, b.name, a.name);
    }
    assert forall|a: PeerV, b: PeerV, c: PeerV| #[trigger] le(a, b) && #[trigger] le(b, c) implies le(
        a,
        c,
    ) by {
        text::lemma_text_order(a.name, b.name, c.name);
    }
    table::law_stable_order(s.store.peers, le);
    if j >= known.len() {
        assert(r.events[j] == lan[j - known.len()]);
        assert(false);
    }
    assert(r.events[i] == known[i] && r.events[j] == known[j]);
    lemma_filter_places(infos, ok, i, j);
    let (a, b) = choose|a: int, b: int|
        0 <= a < b < infos.len() && #[trigger] infos[a] == shown[i] && #[trigger] infos[b]
            == shown[j];
    assert(le(rows[a], rows[b]));
}

proof fn lemma_filter_places<A>(s: Seq<A>, p: spec_fn(A) -> bool, i: int, j: int)
    requires
        0 <= i < j < s.filter(p).len(),
    ensures
        exists|a: int, b: int|
            0 <= a < b < s.len() && #[trigger] s[a] == s.filter(p)[i] && #[trigger] s[b] == s.filter(
                p,
            )[j],
    decreases s.len(),
{
    reveal(Seq::filter);
    if s.len() > 0 {
        let rest = s.drop_last();
        let sub = rest.filter(p);
        if j < sub.len() {
            lemma_filter_places(rest, p, i, j);
            let (a, b) = choose|a: int, b: int|
                0 <= a < b < rest.len() && #[trigger] rest[a] == sub[i] && #[trigger] rest[b]
                    == sub[j];
            assert(s[a] == s.filter(p)[i] && s[b] == s.filter(p)[j]);
        } else {
            assert(sub.contains(sub[i]));
            table::lemma_filter_contains(rest, p, sub[i]);
            let a = choose|a: int| 0 <= a < rest.len() && rest[a] == sub[i];
            assert(s[a] == s.filter(p)[i] && s[s.len() - 1] == s.filter(p)[j]);
        }
    }
}

/// Agents are listed by age, the oldest first.
pub proof fn law_agents_are_listed_by_age(s: DaemonV, group: Option<Seq<char>>, i: int, j: int)
    requires
        0 <= i < j < store::agents_of(s.store, group).len(),
    ensures
        store::agents_of(s.store, group)[i].created_at_ms <= store::agents_of(
            s.store,
            group,
        )[j].created_at_ms,
        ({
            let r = agents::agent_list_reply(s, group, None);
            let a = store::agents_of(s.store, group)[i];
            r.events[i] matches EventV::AgentListItem(x) && x.name == a.name && x.group
                == a.group_name
        }),
{
    let le = queries::agents_by_age();
    let p = queries::agent_of_group(group);
    table::law_stable_order(s.store.agents.filter(p), le);
    let rows = store::agents_of(s.store, group);
    assert(le(rows[i], rows[j]));
}

/// A listing by session shows both ends of every session of that name, in the group that is asked for or
/// in all, as far as they are registered, each as it is recorded.
pub proof fn law_both_ends_are_listed(
    s: DaemonV,
    group: Option<Seq<char>>,
    session: Seq<char>,
    x: SessionV,
    a: AgentV,
)
    requires
        store_laws::wf(s.store),
        s.store.sessions.contains(x),
        x.name == session,
        group is Some ==> x.group_name == group->0,
        s.store.agents.contains(a),
        a.group_name == x.group_name,
        a.name == x.prime_agent || a.name == x.child_agent,
    ensures
        ({
            let r = agents::agent_list_reply(s, group, Some(session));
            exists|k: int|
                0 <= k < r.events.len() && #[trigger] spawn_laws::lists_agent(r.events[k], a)
        }),
{
    let r = agents::agent_list_reply(s, group, Some(session));
    let found = store::agent_of(s.store, a.group_name, a.name);
    let n = choose|n: int| 0 <= n < s.store.agents.len() && s.store.agents[n] == a;
    table::lemma_first_unique(
        s.store.agents,
        store_laws::agent_key(),
        queries::agent_named(a.group_name, a.name),
        n,
    );
    assert(found == Some(a));
    let ends = agents::session_ends(s.store, x);
    let p = agents::found_agent(s.store, x.group_name, x.prime_agent);
    let place = if a.name == x.prime_agent {
        0
    } else {
        p.len() as int
    };
    assert(ends[place] == a);
    if group is Some {
        let m = choose|m: int| 0 <= m < s.store.sessions.len() && s.store.sessions[m] == x;
        table::lemma_first_unique(
            s.store.sessions,
            store_laws::session_key(),
            queries::session_named(x.group_name, x.name),
            m,
        );
        assert(spawn_laws::lists_agent(r.events[place], a));
    } else {
        let q = queries::session_called(session);
        let rows = store::sessions_called(s.store, session);
        table::lemma_filter_contains(s.store.sessions, q, x);
        table::lemma_stable_order_members(
            s.store.sessions.filter(q),
            queries::sessions_by_age(),
            x,
        );
        let i = choose|i: int| 0 <= i < rows.len() && rows[i] == x;
        let k = lemma_end_is_listed(s.store, rows, i, place);
        assert(spawn_laws::lists_agent(r.events[k], a));
    }
}

proof fn lemma_end_is_listed(
    s: StoreV,
    rows: Seq<SessionV>,
    i: int,
    place: int,
) -> (k: int)
    requires
        0 <= i < rows.len(),
        0 <= place < agents::session_ends(s, rows[i]).len(),
    ensures
        0 <= k < agents::ends_of(s, rows).len(),
        agents::ends_of(s, rows)[k] == agents::session_ends(s, rows[i])[place],
    decreases rows.len(),
{
    let rest = agents::ends_of(s, rows.drop_last());
    if i == rows.len() - 1 {
        rest.len() + place
    } else {
        lemma_end_is_listed(s, rows.drop_last(), i, place)
    }
}

} // verus!
