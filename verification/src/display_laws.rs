//! What a client prints, for every answer that it can get.

use vstd::prelude::*;

use crate::bus;
use crate::cli;
use crate::codec;
use crate::display;
use crate::display::Await;
use crate::display::Listing;
use crate::display::StepV;
use crate::display::ThenV;
use crate::harness;
use crate::ipc::AgentInfoV;
use crate::ipc::AgentMsgKind;
use crate::ipc::ConnInfoV;
use crate::ipc::EventV;
use crate::ipc::GroupInfoV;
use crate::ipc::PeerInfoV;
use crate::ipc::SessionInfoV;
use crate::ipc::TokenInfoV;
use crate::ipc::WhoAmIV;
use crate::json;
use crate::text;
use crate::token::Cap;

verus! {

// ----- tables -----

/// A cell starts with its text, is filled with spaces, and is as wide as its column, or as its text
/// where that is wider.
pub proof fn law_cell_holds_its_text(s: Seq<char>, width: int, i: int)
    requires
        width >= 0,
    ensures
        ({
            let c = display::padded(s, width);
            &&& s.is_prefix_of(c)
            &&& c.len() == if s.len() > width {
                s.len() as int
            } else {
                width
            }
            &&& s.len() <= i < c.len() ==> c[i] == ' '
        }),
{
    assert(display::padded(s, width).take(s.len() as int) =~= s);
}

/// Where every cell fits its column, the cells of a row start in the same places whatever they hold, so
/// that they stand under the headings.
pub proof fn law_cells_stand_in_columns(
    a: Seq<char>,
    wa: int,
    b: Seq<char>,
    wb: int,
    c: Seq<char>,
    wc: int,
    d: Seq<char>,
    wd: int,
    rest: Seq<char>,
)
    requires
        a.len() <= wa,
        b.len() <= wb,
        c.len() <= wc,
        d.len() <= wd,
    ensures
        ({
            let row = display::columns4(a, wa, b, wb, c, wc, d, wd, rest);
            &&& row.len() == wa + wb + wc + wd + 4 + rest.len()
            &&& row.subrange(0, a.len() as int) == a
            &&& row.subrange(wa + 1, wa + 1 + b.len()) == b
            &&& row.subrange(wa + wb + 2, wa + wb + 2 + c.len()) == c
            &&& row.subrange(wa + wb + wc + 3, wa + wb + wc + 3 + d.len()) == d
            &&& row.skip(wa + wb + wc + wd + 4) == rest
        }),
        ({
            let row = display::columns2(a, wa, b, wb, rest);
            &&& row.len() == wa + wb + 2 + rest.len()
            &&& row.subrange(0, a.len() as int) == a
            &&& row.subrange(wa + 1, wa + 1 + b.len()) == b
            &&& row.skip(wa + wb + 2) == rest
        }),
{
    reveal_strlit(" ");
    let row = display::columns4(a, wa, b, wb, c, wc, d, wd, rest);
    assert(row.subrange(0, a.len() as int) =~= a);
    assert(row.subrange(wa + 1, wa + 1 + b.len()) =~= b);
    assert(row.subrange(wa + wb + 2, wa + wb + 2 + c.len()) =~= c);
    assert(row.subrange(wa + wb + wc + 3, wa + wb + wc + 3 + d.len()) =~= d);
    assert(row.skip(wa + wb + wc + wd + 4) =~= rest);
    let short = display::columns2(a, wa, b, wb, rest);
    assert(short.subrange(0, a.len() as int) =~= a);
    assert(short.subrange(wa + 1, wa + 1 + b.len()) =~= b);
    assert(short.skip(wa + wb + 2) =~= rest);
}

/// A peer's line tells its name, identifier, origin, state and when it was last seen, each under its
/// heading.
pub proof fn law_peer_line_tells_the_peer(p: PeerInfoV, now_ms: u64)
    ensures
        display::heading_text(Listing::Peers) == display::columns4(
            "NAME"@,
            12,
            "NODEID"@,
            66,
            "SOURCE"@,
            8,
            "STATE"@,
            12,
            "LAST SEEN"@,
        ),
        display::peer_text(p, now_ms) == display::columns4(
            p.name,
            12,
            codec::hex_text(p.nodeid),
            66,
            if p.source is Manual {
                "manual"@
            } else {
                "mdns"@
            },
            8,
            if p.state is Connected {
                "connected("@ + text::decimal_text(p.state->open_streams as nat) + ")"@
            } else if p.state is Idle {
                "idle"@
            } else {
                "offline"@
            },
            12,
            if p.last_seen_ms is Some {
                cli::ago_text(p.last_seen_ms->0, now_ms)
            } else {
                "—"@
            },
        ),
{
}

/// A connection's line tells its peer's name and identifier, how long it has been there, its streams in
/// order, and whether it goes through a relay.
pub proof fn law_connection_line_tells_the_connection(c: ConnInfoV, now_ms: u64)
    ensures
        display::heading_text(Listing::Conns) == display::columns4(
            "PEER"@,
            12,
            "NODEID"@,
            66,
            "SINCE"@,
            10,
            "STREAMS"@,
            24,
            "VIA"@,
        ),
        display::conn_text(c, now_ms) == display::columns4(
            c.peer_name,
            12,
            codec::hex_text(c.nodeid),
            66,
            cli::ago_text(c.since_ms, now_ms),
            10,
            display::joined(c.streams, ","@),
            24,
            if c.via_relay {
                "relay"@
            } else {
                "direct"@
            },
        ),
{
}

/// What is joined holds the parts in order with the separator between them.
pub proof fn law_joined_holds_the_parts(v: Seq<Seq<char>>, w: Seq<char>, sep: Seq<char>)
    ensures
        display::joined(Seq::empty(), sep) == Seq::<char>::empty(),
        display::joined(seq![w], sep) == w,
        v.len() > 0 ==> display::joined(v.push(w), sep) == display::joined(v, sep) + sep + w,
{
    assert(v.push(w).drop_last() =~= v);
}

/// Whether these are the names of capabilities.
pub open spec fn names(caps: Seq<Cap>, v: Seq<Seq<char>>) -> bool {
    &&& v.len() == caps.len()
    &&& forall|i: int| 0 <= i < v.len() && caps[i] == Cap::Msg ==> #[trigger] v[i] == "msg"@
}

/// A token's line tells its identifier, issuer, subject, expiry and capabilities; a revoked one is told
/// as revoked in place of its expiry.
pub proof fn law_token_line_tells_the_token(t: TokenInfoV, caps: Seq<Seq<char>>)
    requires
        names(t.caps, caps),
    ensures
        display::heading_text(Listing::Tokens) == display::columns4(
            "ID"@,
            34,
            "ISS"@,
            66,
            "SUB"@,
            66,
            "EXP"@,
            12,
            "CAPS"@,
        ),
        display::token_text(t) == display::columns4(
            codec::hex_text(t.id),
            34,
            codec::hex_text(t.iss),
            66,
            codec::hex_text(t.sub),
            66,
            if t.revoked {
                "REVOKED"@
            } else {
                text::decimal_text(t.exp as nat)
            },
            12,
            display::joined(caps, ","@),
        ),
{
    assert(display::cap_names(t.caps) =~= caps);
}

/// A group's line tells its name, how many sessions it has, and how long it has been there.
pub proof fn law_group_line_tells_the_group(g: GroupInfoV, now_ms: u64)
    ensures
        display::heading_text(Listing::Groups) == display::columns2(
            "GROUP"@,
            20,
            "SESSIONS"@,
            10,
            "CREATED"@,
        ),
        display::group_text(g, now_ms) == display::columns2(
            g.name,
            20,
            text::decimal_text(g.session_count as nat),
            10,
            cli::ago_text(g.created_at_ms, now_ms),
        ),
{
}

/// A session's line tells its name, child, kind of workspace, status and place; the status is the
/// child's where that is known.
pub proof fn law_session_line_tells_the_session(s: SessionInfoV)
    ensures
        display::heading_text(Listing::Sessions) == display::columns4(
            "SESSION"@,
            14,
            "CHILD"@,
            14,
            "FS"@,
            10,
            "STATUS"@,
            14,
            "WORKSPACE"@,
        ),
        display::session_text(s) == display::columns4(
            s.name,
            14,
            s.child_agent,
            14,
            if s.fs_mode is Worktree {
                "worktree"@
            } else {
                "new"@
            },
            10,
            if s.child_status is Some {
                s.child_status->0
            } else {
                s.status
            },
            14,
            s.workspace_path,
        ),
{
}

/// An agent's line tells its name, group, role and status, and its process, or its directory where it
/// has no process.
pub proof fn law_agent_line_tells_the_agent(a: AgentInfoV)
    ensures
        display::heading_text(Listing::Agents) == display::columns4(
            "AGENT"@,
            14,
            "GROUP"@,
            12,
            "ROLE"@,
            8,
            "STATUS"@,
            14,
            "PID/DIR"@,
        ),
        display::agent_text(a) == display::columns4(
            a.name,
            14,
            a.group,
            12,
            a.role,
            8,
            a.status,
            14,
            if a.pid is Some {
                "pid "@ + text::signed_text(a.pid->0 as int)
            } else if a.dir is Some {
                a.dir->0
            } else {
                Seq::empty()
            },
        ),
{
}

// ----- answers -----

/// Whether a step prints nothing and ends in the given way.
pub open spec fn says_nothing(s: StepV, next: ThenV) -> bool {
    s.out.len() == 0 && s.err.len() == 0 && s.next == next
}

/// Whether a step prints one line, and goes on in the given way.
pub open spec fn says(s: StepV, line: Seq<char>, next: ThenV) -> bool {
    s.out.len() == 1 && s.out[0] == line && s.err.len() == 0 && s.next == next
}

/// Whether an event ends what is listed.
pub open spec fn is_end(l: Listing, e: EventV) -> bool {
    ||| l == Listing::Peers && e is PeerListEnd
    ||| l == Listing::Conns && e is ConnListEnd
    ||| l == Listing::Tokens && e is TokenListEnd
    ||| l == Listing::Groups && e is GroupListEnd
    ||| l == Listing::Sessions && e is SessionListEnd
    ||| l == Listing::Agents && e is AgentListEnd
}

/// Whether an event is one of what is listed.
pub open spec fn is_item(l: Listing, e: EventV) -> bool {
    ||| l == Listing::Peers && e is PeerListItem
    ||| l == Listing::Conns && e is ConnListItem
    ||| l == Listing::Tokens && e is TokenListItem
    ||| l == Listing::Groups && e is GroupListItem
    ||| l == Listing::Sessions && e is SessionListItem
    ||| l == Listing::Agents && e is AgentListItem
}

/// A listing prints the line of each of its items and waits for more, is done at its own end, and takes
/// nothing else.
pub proof fn law_listing_prints_its_items(l: Listing, e: EventV, now_ms: u64)
    requires
        !(e is Failed),
    ensures
        ({
            let s = display::stepped(Await::Listing(l), e, now_ms);
            &&& s.err.len() == 0
            &&& is_item(l, e) ==> s.next is More && s.out.len() == 1
            &&& is_item(l, e) && l == Listing::Peers ==> s.out[0] == display::peer_text(
                e->PeerListItem_0,
                now_ms,
            )
            &&& is_item(l, e) && l == Listing::Conns ==> s.out[0] == display::conn_text(
                e->ConnListItem_0,
                now_ms,
            )
            &&& is_item(l, e) && l == Listing::Tokens ==> s.out[0] == display::token_text(
                e->TokenListItem_0,
            )
            &&& is_item(l, e) && l == Listing::Groups ==> s.out[0] == display::group_text(
                e->GroupListItem_0,
                now_ms,
            )
            &&& is_item(l, e) && l == Listing::Sessions ==> s.out[0] == display::session_text(
                e->SessionListItem_0,
            )
            &&& is_item(l, e) && l == Listing::Agents ==> s.out[0] == display::agent_text(
                e->AgentListItem_0,
            )
            &&& is_end(l, e) ==> s.next is Finish && s.out.len() == 0
            &&& !is_item(l, e) && !is_end(l, e) ==> s.next is Unexpected && s.out.len() == 0
        }),
{
}

/// A request that only asks for something to be done is done when it is, and takes nothing else.
pub proof fn law_acknowledgement_is_awaited(e: EventV, now_ms: u64)
    ensures
        ({
            let s = display::stepped(Await::Ack, e, now_ms);
            &&& s.out.len() == 0 && s.err.len() == 0
            &&& s.next is Finish == e is Done
            &&& s.next is Unexpected == (!(e is Done) && !(e is Failed))
        }),
{
}

/// A message from a peer is printed as one object with its channel, its sender under the name that it is
/// known by or else the identifier, its payload and its time. One on the bus is printed with its sender,
/// kind, payload, session and time. The reader waits for more.
pub proof fn law_messages_are_printed_whole(
    follow: bool,
    from: Seq<u8>,
    from_name: Option<Seq<char>>,
    channel: Seq<char>,
    payload: Seq<u8>,
    ts_ms: u64,
    session: Seq<char>,
    agent: Seq<char>,
    kind: AgentMsgKind,
    now_ms: u64,
)
    ensures
        ({
            let body = if json::json_compact(payload) is Some {
                json::json_compact(payload)->0
            } else {
                json::quoted(harness::lossy_text(payload))
            };
            let sender = if from_name is Some {
                from_name->0
            } else {
                codec::hex_text(from)
            };
            let time = text::decimal_text(ts_ms as nat);
            &&& says(
                display::stepped(
                    Await::Messages { follow },
                    EventV::RecvMsg { from, from_name, channel, payload, ts_ms },
                    now_ms,
                ),
                "{\"channel\":"@ + json::quoted(channel) + ",\"from\":"@ + json::quoted(sender)
                    + ",\"payload\":"@ + body + ",\"ts_ms\":"@ + time + "}"@,
                ThenV::More,
            )
            &&& says(
                display::stepped(
                    Await::BusMessages { follow },
                    EventV::AgentMsg { session, from_agent: agent, kind, payload, ts_ms },
                    now_ms,
                ),
                "{\"from\":"@ + json::quoted(agent) + ",\"kind\":"@ + json::quoted(
                    bus::kind_name(kind),
                ) + ",\"payload\":"@ + body + ",\"session\":"@ + json::quoted(session)
                    + ",\"ts_ms\":"@ + time + "}"@,
                ThenV::More,
            )
            &&& says(
                display::chat_stepped(
                    EventV::RecvMsg { from, from_name, channel, payload, ts_ms },
                ),
                "["@ + sender + "] "@ + harness::lossy_text(payload),
                ThenV::More,
            )
        }),
{
}

/// A chat goes on past the end of the backlog and ends with anything that is no message.
pub proof fn law_chat_ends_with_anything_else(e: EventV)
    requires
        !(e is RecvMsg),
    ensures
        says_nothing(
            display::chat_stepped(e),
            if e is RecvBacklogEnd {
                ThenV::More
            } else {
                ThenV::Finish
            },
        ),
{
}

/// A reader of one kind of messages takes none of the other, and no end of the other's backlog.
pub proof fn law_readers_take_their_own_messages(follow: bool, e: EventV, now_ms: u64)
    ensures
        !(e is RecvMsg) && !(e is RecvBacklogEnd) && !(e is Failed) ==> says_nothing(
            display::stepped(Await::Messages { follow }, e, now_ms),
            ThenV::Unexpected,
        ),
        !(e is AgentMsg) && !(e is AgentBacklogEnd) && !(e is Failed) ==> says_nothing(
            display::stepped(Await::BusMessages { follow }, e, now_ms),
            ThenV::Unexpected,
        ),
        says_nothing(
            display::stepped(Await::Messages { follow: false }, EventV::RecvBacklogEnd, now_ms),
            ThenV::Finish,
        ),
        says_nothing(
            display::stepped(Await::BusMessages { follow: false }, EventV::AgentBacklogEnd, now_ms),
            ThenV::Finish,
        ),
{
}

/// The identifier, the status and the ticket are printed as the daemon told them.
pub proof fn law_install_is_printed(
    nodeid: Seq<u8>,
    version: Seq<char>,
    bound: bool,
    ticket: Seq<char>,
    now_ms: u64,
)
    ensures
        says(
            display::stepped(Await::NodeId, EventV::NodeIdValue(nodeid), now_ms),
            codec::hex_text(nodeid),
            ThenV::Finish,
        ),
        says(
            display::stepped(Await::Ticket, EventV::TicketValue(ticket), now_ms),
            ticket,
            ThenV::Finish,
        ),
        ({
            let s = display::stepped(
                Await::Status,
                EventV::StatusInfo { nodeid, version, endpoint_bound: bound },
                now_ms,
            );
            &&& s.err.len() == 0 && s.next is Finish
            &&& s.out.len() == 3
            &&& s.out[0] == "nodeid: "@ + codec::hex_text(nodeid)
            &&& s.out[1] == "version: "@ + version
            &&& s.out[2] == if bound {
                "endpoint_bound: true"@
            } else {
                "endpoint_bound: false"@
            }
        }),
{
}

/// Whether the report of a token tells its capabilities.
pub open spec fn variants(caps: Seq<Cap>, v: Seq<Seq<char>>) -> bool {
    &&& v.len() == caps.len()
    &&& forall|i: int| 0 <= i < v.len() && caps[i] == Cap::Msg ==> #[trigger] v[i] == "Msg"@
}

/// A token that was issued is printed as it was handed out, and what it holds is reported beside it; of
/// one that was imported what it holds is reported, and the acknowledgement awaited.
pub proof fn law_tokens_are_reported(raw: Seq<u8>, t: TokenInfoV, now_ms: u64)
    ensures
        ({
            let s = display::stepped(Await::Token, EventV::TokenIssued { raw, info: t }, now_ms);
            &&& s.out.len() == 0 && s.err.len() == 1
            &&& s.next == ThenV::Token(raw)
            &&& exists|v: Seq<Seq<char>>|
                {
                    &&& variants(t.caps, v)
                    &&& s.err[0] == "issued token id="@ + codec::hex_text(t.id) + "  iss="@
                        + codec::hex_text(t.iss) + "  sub="@ + codec::hex_text(t.sub) + "  exp="@
                        + text::decimal_text(t.exp as nat) + "  caps=["@
                        + #[trigger] display::joined(v, ", "@) + "]"@
                }
        }),
        ({
            let s = display::stepped(Await::Import, EventV::TokenListItem(t), now_ms);
            &&& s.out.len() == 0 && s.err.len() == 1
            &&& s.next is Ack
            &&& exists|v: Seq<Seq<char>>|
                {
                    &&& variants(t.caps, v)
                    &&& s.err[0] == "imported token id="@ + codec::hex_text(t.id) + " from "@
                        + codec::hex_text(t.iss) + " caps=["@ + #[trigger] display::joined(v, ", "@)
                        + "] exp="@ + text::decimal_text(t.exp as nat)
                }
        }),
{
    let v = display::cap_variants(t.caps);
    assert forall|i: int| 0 <= i < v.len() && t.caps[i] == Cap::Msg implies #[trigger] v[i]
        == "Msg"@ by {}
    assert(variants(t.caps, v));
}

/// The token of a new group is printed alone, for others to read, and how to act as its prime is
/// reported beside it.
pub proof fn law_group_token_is_printed(group: Seq<char>, token: Seq<char>, now_ms: u64)
    ensures
        ({
            let s = display::stepped(Await::Group, EventV::GroupCreated { group, token }, now_ms);
            &&& s.out.len() == 1 && s.out[0] == token
            &&& s.err.len() == 2
            &&& s.err[0] == "created group '"@ + group
                + "'; you are its prime agent. To act as it, export:"@
            &&& s.err[1] == "  export WT_GROUP="@ + group + " WT_TOKEN="@ + token
            &&& s.next is Finish
        }),
{
}

/// Whoever asks who it is is told its group, name, role and session.
pub proof fn law_identity_is_printed(w: WhoAmIV, now_ms: u64)
    ensures
        ({
            let s = display::stepped(Await::WhoAmI, EventV::WhoAmI(w), now_ms);
            &&& s.err.len() == 0 && s.next is Finish
            &&& s.out.len() == 4
            &&& s.out[0] == "group:   "@ + w.group
            &&& s.out[1] == "agent:   "@ + w.agent
            &&& s.out[2] == "role:    "@ + w.role
            &&& w.session is Some ==> s.out[3] == "session: "@ + w.session->0
            &&& w.session is None ==> s.out[3] == "session: "@ + "—"@
        }),
{
}

/// A session that was spawned is printed as one object with its group, name, child's token and
/// workspace, and reported beside it in words.
pub proof fn law_spawned_session_is_printed(
    group: Seq<char>,
    session: Seq<char>,
    token: Seq<char>,
    workspace: Seq<char>,
    now_ms: u64,
)
    ensures
        ({
            let s = display::stepped(
                Await::Spawn,
                EventV::Spawned { group, session, token, workspace },
                now_ms,
            );
            &&& s.next is Finish
            &&& s.out.len() == 1
            &&& s.out[0] == "{\"group\":"@ + json::quoted(group) + ",\"session\":"@ + json::quoted(
                session,
            ) + ",\"token\":"@ + json::quoted(token) + ",\"workspace\":"@ + json::quoted(workspace)
                + "}"@
            &&& s.err.len() == 3
            &&& s.err[0] == "spawned session '"@ + session + "' in group '"@ + group + "'"@
            &&& s.err[1] == "workspace: "@ + workspace
            &&& s.err[2] == "child token: "@ + token
        }),
{
}

} // verus!
