//! What the browser dashboard is shown and may do, for every state and every page.

use vstd::prelude::*;

use crate::bus::BusEventV;
use crate::daemon::DaemonV;
use crate::harness;
use crate::ipc::AgentMsgKind;
use crate::lookup_laws;
use crate::queries;
use crate::rows::AgentV;
use crate::rows::BusV;
use crate::rows::SessionV;
use crate::store;
use crate::store::StoreError;
use crate::store::StoreV;
use crate::store_laws;
use crate::table;
use crate::text;
use crate::web;
use crate::web::CardV;
use crate::web::MessageCardV;
use crate::web::SendError;

verus! {

/// What comes from no page, from an extension, or from a page on this machine, on any port or none, is
/// let through.
pub proof fn law_local_pages_are_let_through(rest: Seq<char>, port: Seq<char>)
    ensures
        web::origin_ok(None),
        web::origin_ok(Some("chrome-extension://"@ + rest)),
        web::origin_ok(Some("moz-extension://"@ + rest)),
        web::origin_ok(Some("http://127.0.0.1"@)),
        web::origin_ok(Some("http://localhost"@)),
        text::is_decimal(port) ==> web::origin_ok(Some("http://127.0.0.1"@ + seq![':'] + port)),
        text::is_decimal(port) ==> web::origin_ok(Some("http://localhost"@ + seq![':'] + port)),
{
    let chrome = "chrome-extension://"@;
    let moz = "moz-extension://"@;
    assert((chrome + rest).take(chrome.len() as int) =~= chrome);
    assert((moz + rest).take(moz.len() as int) =~= moz);
    lemma_page("http://127.0.0.1"@, port);
    lemma_page("http://localhost"@, port);
}

proof fn lemma_page(host: Seq<char>, port: Seq<char>)
    ensures
        web::is_page_of(host, host),
        text::is_decimal(port) ==> web::is_page_of(host + seq![':'] + port, host),
{
    let o = host + seq![':'] + port;
    let n = host.len() as int;
    assert(host.take(n) =~= host);
    assert(o.take(n) =~= host);
    assert(o.skip(n + 1) =~= port);
}

/// Nothing else is let through: what is, begins as one of these, and a page names no more than a port
/// behind the host.
pub proof fn law_other_pages_are_kept_out(o: Seq<char>)
    requires
        web::origin_ok(Some(o)),
    ensures
        ({
            ||| "chrome-extension://"@.is_prefix_of(o)
            ||| "moz-extension://"@.is_prefix_of(o)
            ||| o == "http://127.0.0.1"@
            ||| o == "http://localhost"@
            ||| "http://127.0.0.1"@.is_prefix_of(o) && o[16] == ':' && text::is_decimal(o.skip(17))
            ||| "http://localhost"@.is_prefix_of(o) && o[16] == ':' && text::is_decimal(o.skip(17))
        }),
{
    reveal_strlit("http://127.0.0.1");
    reveal_strlit("http://localhost");
    assert(o.take(o.len() as int) =~= o);
}

/// Whether a card shows a session as it is recorded, with what is recorded of its child.
pub open spec fn shows_session(s: StoreV, c: CardV, x: SessionV) -> bool {
    &&& c.name == x.name
    &&& c.prime_agent == x.prime_agent
    &&& c.child_agent == x.child_agent
    &&& c.fs_mode == x.fs_mode
    &&& c.workspace_path == x.workspace_path
    &&& c.branch == x.branch
    &&& c.session_status == x.status
    &&& c.created_at_ms == x.created_at_ms
    &&& if exists|i: int|
        0 <= i < s.agents.len() && (#[trigger] s.agents[i]).group_name == x.group_name
            && s.agents[i].name == x.child_agent {
        exists|a: AgentV|
            {
                &&& #[trigger] s.agents.contains(a)
                &&& a.group_name == x.group_name && a.name == x.child_agent
                &&& c.agent_status == Some(a.status) && c.agent_role == Some(a.role)
                &&& c.pid == a.pid && c.last_seen_ms == a.last_seen_ms
            }
    } else {
        &&& c.agent_status is None && c.agent_role is None
        &&& c.pid is None && c.last_seen_ms is None
    }
}

/// The dashboard shows every session of its group as it is recorded and no other, the oldest first.
pub proof fn law_sessions_are_shown(s: DaemonV, group: Seq<char>, x: SessionV, i: int, j: int)
    ensures
        ({
            let c = web::cards(s.store, group);
            &&& s.store.sessions.contains(x) && x.group_name == group ==> exists|k: int|
                0 <= k < c.len() && #[trigger] shows_session(s.store, c[k], x)
            &&& 0 <= i < c.len() ==> exists|y: SessionV| #[trigger]
                s.store.sessions.contains(y) && y.group_name == group && shows_session(
                    s.store,
                    c[i],
                    y,
                )
            &&& 0 <= i < j < c.len() ==> c[i].created_at_ms <= c[j].created_at_ms
        }),
{
    let p = queries::session_of_group(group);
    let le = queries::sessions_by_age();
    let rows = store::sessions_of(s.store, group);
    let c = web::cards(s.store, group);
    table::lemma_filter_contains(s.store.sessions, p, x);
    table::lemma_stable_order_members(s.store.sessions.filter(p), le, x);
    table::law_stable_order(s.store.sessions.filter(p), le);
    if rows.contains(x) {
        let k = choose|k: int| 0 <= k < rows.len() && rows[k] == x;
        lemma_card(s, group, x);
        assert(c[k] == web::card(x, store::agent_of(s.store, group, x.child_agent)));
        assert(shows_session(s.store, c[k], x));
    }
    if 0 <= i < rows.len() {
        assert(rows.contains(rows[i]));
        table::lemma_filter_contains(s.store.sessions, p, rows[i]);
        table::lemma_stable_order_members(s.store.sessions.filter(p), le, rows[i]);
        lemma_card(s, group, rows[i]);
        assert(c[i] == web::card(rows[i], store::agent_of(s.store, group, rows[i].child_agent)));
        assert(s.store.sessions.contains(rows[i]));
    }
    if 0 <= i < j < rows.len() {
        assert(le(rows[i], rows[j]));
    }
}

proof fn lemma_card(s: DaemonV, group: Seq<char>, x: SessionV)
    requires
        x.group_name == group,
    ensures
        shows_session(
            s.store,
            web::card(x, store::agent_of(s.store, group, x.child_agent)),
            x,
        ),
{
    lookup_laws::law_agent_is_found(s, group, x.child_agent, Seq::empty());
    if let Some(a) = store::agent_of(s.store, group, x.child_agent) {
        assert(s.store.agents.contains(a));
        let i = choose|i: int| 0 <= i < s.store.agents.len() && s.store.agents[i] == a;
        assert(s.store.agents[i].group_name == x.group_name);
    }
}

/// Whether a card shows a message as it is stored.
pub open spec fn shows_message(c: MessageCardV, m: BusV) -> bool {
    &&& c.session == m.session_name
    &&& c.seq == m.seq
    &&& c.from_agent == m.from_agent
    &&& c.to_agent == m.to_agent
    &&& c.kind == m.kind
    &&& c.text == harness::lossy_text(m.payload)
    &&& c.ts_ms == m.enqueued_at_ms
}

/// The dashboard shows what was said in a session behind the number that it gives, all of it and
/// nothing else, in the order in which it was said.
pub proof fn law_transcript_is_shown(
    s: StoreV,
    group: Seq<char>,
    session: Seq<char>,
    after_seq: u64,
    m: BusV,
    i: int,
    j: int,
)
    ensures
        ({
            let c = web::transcript(s, group, session, after_seq);
            &&& s.bus.contains(m) && m.group_name == group && m.session_name == session && m.seq
                > after_seq ==> exists|k: int| 0 <= k < c.len() && #[trigger] shows_message(c[k], m)
            &&& 0 <= i < c.len() ==> exists|x: BusV| #[trigger]
                s.bus.contains(x) && x.group_name == group && x.session_name == session && x.seq
                    > after_seq && shows_message(c[i], x)
            &&& 0 <= i < j < c.len() ==> c[i].seq <= c[j].seq
        }),
{
    let rows = store::session_log(s, group, session, after_seq);
    let c = web::transcript(s, group, session, after_seq);
    store_laws::law_session_log_is_complete(s, group, session, after_seq, m);
    lookup_laws::law_transcripts_hold(s, group, session, after_seq, 0, m, i, j);
    if rows.contains(m) {
        let k = choose|k: int| 0 <= k < rows.len() && rows[k] == m;
        assert(shows_message(c[k], m));
    }
    if 0 <= i < rows.len() {
        assert(rows.contains(rows[i]));
        store_laws::law_session_log_is_complete(s, group, session, after_seq, rows[i]);
        assert(s.bus.contains(rows[i]));
    }
}

/// The dashboard of a group is shown live what is said in that group and nothing else, just as it is
/// shown it later.
pub proof fn law_live_messages_are_shown(e: BusEventV, m: BusV, group: Seq<char>)
    ensures
        web::live_message(e, group) is Some <==> e.group == group,
        lookup_laws::tells(e, m) && e.group == group ==> shows_message(
            web::live_message(e, group)->0,
            m,
        ) && web::live_message(e, group)->0 == web::message_card(m),
{
    lookup_laws::law_kinds_are_kept(e.kind, Seq::empty());
}

/// What the dashboard sends is said in the session, by its prime to its child, as it was typed, and of
/// the kind that is named, or as the child's next turn. What is published is what is stored. Where there
/// is no such session nothing is said.
pub proof fn law_page_speaks_for_the_prime(
    s: StoreV,
    group: Seq<char>,
    session: Seq<char>,
    kind: Option<Seq<char>>,
    body: Seq<char>,
    now_ms: u64,
)
    requires
        s.retention > 0,
    ensures
        ({
            let t = web::after_page_message(s, group, session, kind, body, now_ms);
            let r = web::page_message(s, group, session, kind, body, now_ms);
            match store::session_of(s, group, session) {
                None => t == s && r == Err::<BusEventV, SendError>(SendError::NoSuchSession),
                Some(x) => {
                    ||| {
                        &&& t == s
                        &&& r == Err::<BusEventV, SendError>(
                            SendError::Store(StoreError::SeqExhausted),
                        )
                        &&& exists|y: BusV| #[trigger]
                            s.bus.contains(y) && y.group_name == group && y.session_name == session
                                && y.seq == u64::MAX
                    }
                    ||| {
                        let m = t.bus.last();
                        &&& lookup_laws::said(s, t, m)
                        &&& m.group_name == group && m.session_name == session
                        &&& m.from_agent == x.prime_agent && m.to_agent == x.child_agent
                        &&& m.payload == text::utf8(body) && m.enqueued_at_ms == now_ms
                        &&& kind is None ==> m.kind == "turn_input"@
                        &&& kind is Some && is_kind(kind->0) ==> m.kind == kind->0
                        &&& kind is Some && !is_kind(kind->0) ==> m.kind == "user"@
                        &&& r is Ok && lookup_laws::tells(r->Ok_0, m)
                    }
                },
            }
        }),
{
    if let Some(x) = store::session_of(s, group, session) {
        let k = web::send_kind(kind);
        lookup_laws::law_sent_is_said(
            s,
            group,
            session,
            x.prime_agent,
            x.child_agent,
            k,
            text::utf8(body),
            now_ms,
        );
        lookup_laws::law_kinds_are_kept(AgentMsgKind::User, Seq::empty());
        lookup_laws::law_kinds_are_kept(AgentMsgKind::TurnInput, Seq::empty());
        lookup_laws::law_kinds_are_kept(AgentMsgKind::TurnOutput, Seq::empty());
        lookup_laws::law_kinds_are_kept(AgentMsgKind::Control, Seq::empty());
        lookup_laws::law_kinds_are_kept(AgentMsgKind::Trace, Seq::empty());
        if kind is Some {
            lookup_laws::law_kinds_are_kept(AgentMsgKind::User, kind->0);
        }
    }
}

/// Whether a text names a kind of message.
pub open spec fn is_kind(s: Seq<char>) -> bool {
    s == "user"@ || s == "turn_input"@ || s == "turn_output"@ || s == "control"@ || s == "trace"@
}

} // verus!
