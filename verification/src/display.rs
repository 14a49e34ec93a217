//! What the command line prints of the daemon's answers.

use vstd::prelude::*;

use crate::bus;
use crate::cli;
use crate::codec;
use crate::harness;
use crate::ipc::AgentInfo;
use crate::ipc::AgentInfoV;
use crate::ipc::ConnInfo;
use crate::ipc::ConnInfoV;
use crate::ipc::ErrorV;
use crate::ipc::EventV;
use crate::ipc::GroupInfo;
use crate::ipc::GroupInfoV;
use crate::ipc::IpcError;
use crate::ipc::IpcEvent;
use crate::ipc::PeerInfo;
use crate::ipc::PeerInfoV;
use crate::ipc::PeerSource;
use crate::ipc::PeerState;
use crate::ipc::SessionInfo;
use crate::ipc::SessionInfoV;
use crate::ipc::TokenInfo;
use crate::ipc::TokenInfoV;
use crate::json;
use crate::node::NodeId;
use crate::text;
use crate::token::Cap;

verus! {

// ----- tables -----

/// So many spaces.
pub open spec fn spaces(n: int) -> Seq<char> {
    Seq::new(
        if n > 0 {
            n as nat
        } else {
            0
        },
        |i: int| ' ',
    )
}

/// `s` filled with spaces up to a width; a longer text stays as it is.
pub open spec fn padded(s: Seq<char>, width: int) -> Seq<char> {
    s + spaces(width - s.len())
}

/// `s` filled with spaces up to a width.
fn pad(s: &str, width: usize) -> (r: String)
    ensures
        r@ == padded(s@, width as int),
{
    let n = s.unicode_len();
    let mut r = s.to_owned();
    let mut i: usize = n;
    assert(r@ =~= s@ + spaces(0));
    while i < width
        invariant
            n == s@.len(),
            n <= i,
            i <= width || i == n,
            r@ == s@ + spaces(i - n),
        decreases width - i,
    {
        r.push(' ');
        assert(r@ =~= s@ + spaces(i + 1 - n));
        i = i + 1;
    }
    assert(r@ =~= padded(s@, width as int));
    r
}

/// Texts joined by another between them.
pub open spec fn joined(v: Seq<Seq<char>>, sep: Seq<char>) -> Seq<char>
    decreases v.len(),
{
    if v.len() == 0 {
        Seq::empty()
    } else if v.len() == 1 {
        v[0]
    } else {
        joined(v.drop_last(), sep) + sep + v.last()
    }
}

/// Texts joined by another between them.
fn join(v: &Vec<String>, sep: &str) -> (r: String)
    ensures
        r@ == joined(text::texts(v@), sep@),
{
    let mut r = String::new();
    let ghost all = text::texts(v@);
    let mut i: usize = 0;
    assert(r@ =~= joined(all.take(0), sep@));
    while i < v.len()
        invariant
            i <= v.len(),
            all == text::texts(v@),
            r@ == joined(all.take(i as int), sep@),
        decreases v.len() - i,
    {
        let ghost before = r@;
        assert(all.take(i + 1).drop_last() =~= all.take(i as int));
        assert(all.take(i + 1).last() == v@[i as int]@);
        if i == 0 {
            r = v[0].clone();
        } else {
            r = r.concat(sep).concat(v[i].as_str());
        }
        i = i + 1;
    }
    assert(all.take(i as int) =~= all);
    r
}

/// Two cells and a rest, the cells filled to their widths.
pub open spec fn columns2(a: Seq<char>, wa: int, b: Seq<char>, wb: int, rest: Seq<char>) -> Seq<char> {
    padded(a, wa) + " "@ + padded(b, wb) + " "@ + rest
}

/// Four cells and a rest, the cells filled to their widths.
pub open spec fn columns4(
    a: Seq<char>,
    wa: int,
    b: Seq<char>,
    wb: int,
    c: Seq<char>,
    wc: int,
    d: Seq<char>,
    wd: int,
    rest: Seq<char>,
) -> Seq<char> {
    padded(a, wa) + " "@ + padded(b, wb) + " "@ + padded(c, wc) + " "@ + padded(d, wd) + " "@ + rest
}

fn row2(a: &str, wa: usize, b: &str, wb: usize, rest: &str) -> (r: String)
    ensures
        r@ == columns2(a@, wa as int, b@, wb as int, rest@),
{
    pad(a, wa).concat(" ").concat(pad(b, wb).as_str()).concat(" ").concat(rest)
}

fn row4(
    a: &str,
    wa: usize,
    b: &str,
    wb: usize,
    c: &str,
    wc: usize,
    d: &str,
    wd: usize,
    rest: &str,
) -> (r: String)
    ensures
        r@ == columns4(
            a@,
            wa as int,
            b@,
            wb as int,
            c@,
            wc as int,
            d@,
            wd as int,
            rest@,
        ),
{
    pad(a, wa).concat(" ").concat(pad(b, wb).as_str()).concat(" ").concat(
        pad(c, wc).as_str(),
    ).concat(" ").concat(pad(d, wd).as_str()).concat(" ").concat(rest)
}

/// What is listed.
#[derive(Debug, Clone, Copy, PartialEq, Eq, Structural)]
pub enum Listing {
    Peers,
    Conns,
    Tokens,
    Groups,
    Sessions,
    Agents,
}

/// The line above a listing.
pub open spec fn heading_text(l: Listing) -> Seq<char> {
    match l {
        Listing::Peers => columns4(
            "NAME"@,
            12,
            "NODEID"@,
            66,
            "SOURCE"@,
            8,
            "STATE"@,
            12,
            "LAST SEEN"@,
        ),
        Listing::Conns => columns4(
            "PEER"@,
            12,
            "NODEID"@,
            66,
            "SINCE"@,
            10,
            "STREAMS"@,
            24,
            "VIA"@,
        ),
        Listing::Tokens => columns4("ID"@, 34, "ISS"@, 66, "SUB"@, 66, "EXP"@, 12, "CAPS"@),
        Listing::Groups => columns2("GROUP"@, 20, "SESSIONS"@, 10, "CREATED"@),
        Listing::Sessions => columns4(
            "SESSION"@,
            14,
            "CHILD"@,
            14,
            "FS"@,
            10,
            "STATUS"@,
            14,
            "WORKSPACE"@,
        ),
        Listing::Agents => columns4(
            "AGENT"@,
            14,
            "GROUP"@,
            12,
            "ROLE"@,
            8,
            "STATUS"@,
            14,
            "PID/DIR"@,
        ),
    }
}

/// The line above a listing.
pub fn heading(l: Listing) -> (r: String)
    ensures
        r@ == heading_text(l),
{
    match l {
        Listing::Peers => row4("NAME", 12, "NODEID", 66, "SOURCE", 8, "STATE", 12, "LAST SEEN"),
        Listing::Conns => row4("PEER", 12, "NODEID", 66, "SINCE", 10, "STREAMS", 24, "VIA"),
        Listing::Tokens => row4("ID", 34, "ISS", 66, "SUB", 66, "EXP", 12, "CAPS"),
        Listing::Groups => row2("GROUP", 20, "SESSIONS", 10, "CREATED"),
        Listing::Sessions => row4(
            "SESSION",
            14,
            "CHILD",
            14,
            "FS",
            10,
            "STATUS",
            14,
            "WORKSPACE",
        ),
        Listing::Agents => row4("AGENT", 14, "GROUP", 12, "ROLE", 8, "STATUS", 14, "PID/DIR"),
    }
}

/// How a peer is reached, in words.
pub open spec fn state_text(s: PeerState) -> Seq<char> {
    match s {
        PeerState::Connected { open_streams } => "connected("@ + text::decimal_text(
            open_streams as nat,
        ) + ")"@,
        PeerState::Idle => "idle"@,
        PeerState::Offline => "offline"@,
    }
}

/// Where a peer is known from, in words.
pub open spec fn source_text(s: PeerSource) -> Seq<char> {
    match s {
        PeerSource::Manual => "manual"@,
        PeerSource::Mdns => "mdns"@,
    }
}

/// The line of a peer.
pub open spec fn peer_text(p: PeerInfoV, now_ms: u64) -> Seq<char> {
    columns4(
        p.name,
        12,
        codec::hex_text(p.nodeid),
        66,
        source_text(p.source),
        8,
        state_text(p.state),
        12,
        match p.last_seen_ms {
            Some(t) => cli::ago_text(t, now_ms),
            None => "—"@,
        },
    )
}

/// The line of a peer.
pub fn peer_line(p: &PeerInfo, now_ms: u64) -> (r: String)
    ensures
        r@ == peer_text(p@, now_ms),
{
    let source = match p.source {
        PeerSource::Manual => "manual",
        PeerSource::Mdns => "mdns",
    };
    let state = match p.state {
        PeerState::Connected { open_streams } => "connected(".to_owned().concat(
            text::u64_text(open_streams as u64).as_str(),
        ).concat(")"),
        PeerState::Idle => "idle".to_owned(),
        PeerState::Offline => "offline".to_owned(),
    };
    let last = match p.last_seen_ms {
        Some(t) => cli::ago_at(t, now_ms),
        None => "—".to_owned(),
    };
    row4(
        p.name.as_str(),
        12,
        p.nodeid.to_string().as_str(),
        66,
        source,
        8,
        state.as_str(),
        12,
        last.as_str(),
    )
}

/// The line of a connection.
pub open spec fn conn_text(c: ConnInfoV, now_ms: u64) -> Seq<char> {
    columns4(
        c.peer_name,
        12,
        codec::hex_text(c.nodeid),
        66,
        cli::ago_text(c.since_ms, now_ms),
        10,
        joined(c.streams, ","@),
        24,
        if c.via_relay {
            "relay"@
        } else {
            "direct"@
        },
    )
}

/// The line of a connection.
pub fn conn_line(c: &ConnInfo, now_ms: u64) -> (r: String)
    ensures
        r@ == conn_text(c@, now_ms),
{
    let via = if c.via_relay {
        "relay"
    } else {
        "direct"
    };
    row4(
        c.peer_name.as_str(),
        12,
        c.nodeid.to_string().as_str(),
        66,
        cli::ago_at(c.since_ms, now_ms).as_str(),
        10,
        join(&c.streams, ",").as_str(),
        24,
        via,
    )
}

/// The names of capabilities.
pub open spec fn cap_names(caps: Seq<Cap>) -> Seq<Seq<char>> {
    caps.map_values(
        |c: Cap|
            match c {
                Cap::Msg => "msg"@,
            },
    )
}

/// The capabilities as they stand in a report.
pub open spec fn cap_variants(caps: Seq<Cap>) -> Seq<Seq<char>> {
    caps.map_values(
        |c: Cap|
            match c {
                Cap::Msg => "Msg"@,
            },
    )
}

fn names_of(caps: &Vec<Cap>) -> (r: Vec<String>)
    ensures
        text::texts(r@) == cap_names(caps@),
{
    let mut r: Vec<String> = Vec::new();
    let mut i: usize = 0;
    while i < caps.len()
        invariant
            i <= caps.len(),
            r@.len() == i,
            forall|j: int| 0 <= j < i ==> (#[trigger] r@[j])@ == "msg"@,
        decreases caps.len() - i,
    {
        r.push(caps[i].to_string());
        i = i + 1;
    }
    assert(text::texts(r@) =~= cap_names(caps@));
    r
}

fn variants_of(caps: &Vec<Cap>) -> (r: Vec<String>)
    ensures
        text::texts(r@) == cap_variants(caps@),
{
    let mut r: Vec<String> = Vec::new();
    let mut i: usize = 0;
    while i < caps.len()
        invariant
            i <= caps.len(),
            r@.len() == i,
            forall|j: int| 0 <= j < i ==> (#[trigger] r@[j])@ == "Msg"@,
        decreases caps.len() - i,
    {
        match caps[i] {
            Cap::Msg => r.push("Msg".to_owned()),
        }
        i = i + 1;
    }
    assert(text::texts(r@) =~= cap_variants(caps@));
    r
}

/// The line of a token.
pub open spec fn token_text(t: TokenInfoV) -> Seq<char> {
    columns4(
        codec::hex_text(t.id),
        34,
        codec::hex_text(t.iss),
        66,
        codec::hex_text(t.sub),
        66,
        if t.revoked {
            "REVOKED"@
        } else {
            text::decimal_text(t.exp as nat)
        },
        12,
        joined(cap_names(t.caps), ","@),
    )
}

/// The line of a token.
pub fn token_line(t: &TokenInfo) -> (r: String)
    ensures
        r@ == token_text(t@),
{
    let exp = if t.revoked {
        "REVOKED".to_owned()
    } else {
        text::u64_text(t.exp)
    };
    row4(
        codec::hex_encode(t.id.as_slice()).as_str(),
        34,
        t.iss.to_string().as_str(),
        66,
        t.sub.to_string().as_str(),
        66,
        exp.as_str(),
        12,
        join(&names_of(&t.caps), ",").as_str(),
    )
}

/// The line of a group.
pub open spec fn group_text(g: GroupInfoV, now_ms: u64) -> Seq<char> {
    columns2(
        g.name,
        20,
        text::decimal_text(g.session_count as nat),
        10,
        cli::ago_text(g.created_at_ms, now_ms),
    )
}

/// The line of a group.
pub fn group_line(g: &GroupInfo, now_ms: u64) -> (r: String)
    ensures
        r@ == group_text(g@, now_ms),
{
    row2(
        g.name.as_str(),
        20,
        text::u64_text(g.session_count as u64).as_str(),
        10,
        cli::ago_at(g.created_at_ms, now_ms).as_str(),
    )
}

/// The line of a session. The child's own status stands for that of the session where it is known.
pub open spec fn session_text(s: SessionInfoV) -> Seq<char> {
    columns4(
        s.name,
        14,
        s.child_agent,
        14,
        crate::agents::mode_name(s.fs_mode),
        10,
        match s.child_status {
            Some(t) => t,
            None => s.status,
        },
        14,
        s.workspace_path,
    )
}

/// The line of a session.
pub fn session_line(s: &SessionInfo) -> (r: String)
    ensures
        r@ == session_text(s@),
{
    let status = match &s.child_status {
        Some(t) => t.as_str(),
        None => s.status.as_str(),
    };
    row4(
        s.name.as_str(),
        14,
        s.child_agent.as_str(),
        14,
        crate::agents::fs_mode_name(s.fs_mode),
        10,
        status,
        14,
        s.workspace_path.as_str(),
    )
}

/// The line of an agent: its process where it has one, else its directory.
pub open spec fn agent_text(a: AgentInfoV) -> Seq<char> {
    columns4(
        a.name,
        14,
        a.group,
        12,
        a.role,
        8,
        a.status,
        14,
        match (a.pid, a.dir) {
            (Some(p), _) => "pid "@ + text::signed_text(p as int),
            (None, Some(d)) => d,
            (None, None) => Seq::empty(),
        },
    )
}

/// The line of an agent.
pub fn agent_line(a: &AgentInfo) -> (r: String)
    ensures
        r@ == agent_text(a@),
{
    let extra = match a.pid {
        Some(p) => "pid ".to_owned().concat(text::i64_text(p).as_str()),
        None => match &a.dir {
            Some(d) => d.clone(),
            None => {
                let e = String::new();
                assert(e@ =~= Seq::empty());
                e
            },
        },
    };
    row4(
        a.name.as_str(),
        14,
        a.group.as_str(),
        12,
        a.role.as_str(),
        8,
        a.status.as_str(),
        14,
        extra.as_str(),
    )
}

// ----- messages -----

/// Whether a text stands on one line.
pub open spec fn one_line(s: Seq<char>) -> bool {
    !s.contains('\n')
}

proof fn lemma_one_line(a: Seq<char>, b: Seq<char>)
    requires
        one_line(a),
        one_line(b),
    ensures
        one_line(a + b),
{
    let s = a + b;
    assert forall|i: int| 0 <= i < s.len() implies s[i] != '\n' by {
        if i < a.len() {
            assert(s[i] == a[i]);
        } else {
            assert(s[i] == b[i - a.len()]);
        }
    }
}

proof fn lemma_number_is_one_line(n: nat)
    ensures
        one_line(text::decimal_text(n)),
{
    text::law_decimal_roundtrip(n);
    let s = text::decimal_text(n);
    assert forall|i: int| 0 <= i < s.len() implies s[i] != '\n' by {
        assert(text::is_digit(s[i]));
    }
}

/// Adds a member that is a string, after a piece of text.
fn with_text(s: String, piece: &str, value: &str) -> (r: String)
    requires
        one_line(s@),
        one_line(piece@),
    ensures
        r@ == s@ + piece@ + json::quoted(value@),
        one_line(r@),
{
    proof {
        json::law_quoted_is_one_line(value@);
        lemma_one_line(s@, piece@);
        lemma_one_line(s@ + piece@, json::quoted(value@));
    }
    s.concat(piece).concat(json::quote(value).as_str())
}

/// Adds a member that is a payload, after a piece of text.
fn with_payload(s: String, piece: &str, payload: &[u8]) -> (r: String)
    requires
        one_line(s@),
        one_line(piece@),
    ensures
        r@ == s@ + piece@ + payload_json(payload@),
        one_line(r@),
{
    let value = payload_text(payload);
    proof {
        lemma_one_line(s@, piece@);
        lemma_one_line(s@ + piece@, value@);
    }
    s.concat(piece).concat(value.as_str())
}

/// Adds the time of a message and the end of the object.
fn with_time(s: String, ts_ms: u64) -> (r: String)
    requires
        one_line(s@),
    ensures
        r@ == s@ + ",\"ts_ms\":"@ + text::decimal_text(ts_ms as nat) + "}"@,
        one_line(r@),
{
    proof {
        reveal_strlit(",\"ts_ms\":");
        reveal_strlit("}");
        lemma_number_is_one_line(ts_ms as nat);
        lemma_one_line(s@, ",\"ts_ms\":"@);
        lemma_one_line(s@ + ",\"ts_ms\":"@, text::decimal_text(ts_ms as nat));
        lemma_one_line(s@ + ",\"ts_ms\":"@ + text::decimal_text(ts_ms as nat), "}"@);
    }
    s.concat(",\"ts_ms\":").concat(text::u64_text(ts_ms).as_str()).concat("}")
}

/// A payload as JSON: as it is where it is JSON, else as a string.
pub open spec fn payload_json(payload: Seq<u8>) -> Seq<char> {
    match json::json_compact(payload) {
        Some(t) => t,
        None => json::quoted(harness::lossy_text(payload)),
    }
}

fn payload_text(payload: &[u8]) -> (r: String)
    ensures
        r@ == payload_json(payload@),
        one_line(r@),
{
    match json::compact(payload) {
        Some(t) => t,
        None => {
            let lossy = harness::from_utf8_lossy(payload);
            proof {
                json::law_quoted_is_one_line(lossy@);
            }
            json::quote(lossy.as_str())
        },
    }
}

/// The line of a message from a peer: a JSON object, its members in the order of their names.
pub open spec fn message_json(
    from: Seq<char>,
    channel: Seq<char>,
    payload: Seq<u8>,
    ts_ms: u64,
) -> Seq<char> {
    "{\"channel\":"@ + json::quoted(channel) + ",\"from\":"@ + json::quoted(from)
        + ",\"payload\":"@ + payload_json(payload) + ",\"ts_ms\":"@ + text::decimal_text(
        ts_ms as nat,
    ) + "}"@
}

/// The line of a message on the bus.
pub open spec fn bus_json(
    session: Seq<char>,
    from: Seq<char>,
    kind: Seq<char>,
    payload: Seq<u8>,
    ts_ms: u64,
) -> Seq<char> {
    "{\"from\":"@ + json::quoted(from) + ",\"kind\":"@ + json::quoted(kind) + ",\"payload\":"@
        + payload_json(payload) + ",\"session\":"@ + json::quoted(session) + ",\"ts_ms\":"@
        + text::decimal_text(ts_ms as nat) + "}"@
}

/// The line of a session that was spawned.
pub open spec fn spawned_json(
    group: Seq<char>,
    session: Seq<char>,
    token: Seq<char>,
    workspace: Seq<char>,
) -> Seq<char> {
    "{\"group\":"@ + json::quoted(group) + ",\"session\":"@ + json::quoted(session)
        + ",\"token\":"@ + json::quoted(token) + ",\"workspace\":"@ + json::quoted(workspace) + "}"@
}

fn message_line(from: &str, channel: &str, payload: &[u8], ts_ms: u64) -> (r: String)
    ensures
        r@ == message_json(from@, channel@, payload@, ts_ms),
        one_line(r@),
{
    proof {
        reveal_strlit("{\"channel\":");
        reveal_strlit(",\"from\":");
        reveal_strlit(",\"payload\":");
    }
    let start = String::new();
    assert(start@ + "{\"channel\":"@ =~= "{\"channel\":"@);
    let a = with_text(start, "{\"channel\":", channel);
    let b = with_text(a, ",\"from\":", from);
    with_time(with_payload(b, ",\"payload\":", payload), ts_ms)
}

fn bus_line(session: &str, from: &str, kind: &str, payload: &[u8], ts_ms: u64) -> (r: String)
    ensures
        r@ == bus_json(session@, from@, kind@, payload@, ts_ms),
        one_line(r@),
{
    proof {
        reveal_strlit("{\"from\":");
        reveal_strlit(",\"kind\":");
        reveal_strlit(",\"payload\":");
        reveal_strlit(",\"session\":");
    }
    let start = String::new();
    assert(start@ + "{\"from\":"@ =~= "{\"from\":"@);
    let a = with_text(start, "{\"from\":", from);
    let b = with_text(a, ",\"kind\":", kind);
    let c = with_payload(b, ",\"payload\":", payload);
    with_time(with_text(c, ",\"session\":", session), ts_ms)
}

fn spawned_line(group: &str, session: &str, token: &str, workspace: &str) -> (r: String)
    ensures
        r@ == spawned_json(group@, session@, token@, workspace@),
{
    "{\"group\":".to_owned().concat(json::quote(group).as_str()).concat(",\"session\":").concat(
        json::quote(session).as_str(),
    ).concat(",\"token\":").concat(json::quote(token).as_str()).concat(",\"workspace\":").concat(
        json::quote(workspace).as_str(),
    ).concat("}")
}

/// The name that a message is shown under: the peer's, or its identifier where it has none.
pub open spec fn shown_name(from: Seq<u8>, from_name: Option<Seq<char>>) -> Seq<char> {
    match from_name {
        Some(n) => n,
        None => codec::hex_text(from),
    }
}

// ----- a client's side of a request -----

/// What a client waits for.
#[derive(Debug, Clone, Copy)]
pub enum Await {
    /// That the request was carried out.
    Ack,
    /// The items of a listing.
    Listing(Listing),
    NodeId,
    Status,
    Ticket,
    /// A token that was issued.
    Token,
    /// A token that was imported.
    Import,
    /// A group that was created.
    Group,
    WhoAmI,
    /// A session that was spawned.
    Spawn,
    /// Messages from peers.
    Messages { follow: bool },
    /// Messages on the bus.
    BusMessages { follow: bool },
}

/// What a client does next.
#[derive(Debug)]
pub enum Then {
    /// It waits for the next event.
    More,
    /// It is done.
    Finish,
    /// It waits for the acknowledgement.
    Ack,
    /// It prints the encoded token in base32, and is done.
    Token(Vec<u8>),
    /// It fails as the daemon said.
    Fail(IpcError),
    /// It fails because it got something that it did not wait for.
    Unexpected,
}

/// The model of what a client does next.
pub enum ThenV {
    More,
    Finish,
    Ack,
    Token(Seq<u8>),
    Fail(ErrorV),
    Unexpected,
}

impl View for Then {
    type V = ThenV;

    open spec fn view(&self) -> ThenV {
        match *self {
            Then::More => ThenV::More,
            Then::Finish => ThenV::Finish,
            Then::Ack => ThenV::Ack,
            Then::Token(b) => ThenV::Token(b@),
            Then::Fail(e) => ThenV::Fail(e@),
            Then::Unexpected => ThenV::Unexpected,
        }
    }
}

/// What a client does with an event: the lines that it prints to the standard output and to the
/// standard error, and what it does next.
#[derive(Debug)]
pub struct Step {
    pub out: Vec<String>,
    pub err: Vec<String>,
    pub next: Then,
}

/// The model of a step.
#[verifier::ext_equal]
pub struct StepV {
    pub out: Seq<Seq<char>>,
    pub err: Seq<Seq<char>>,
    pub next: ThenV,
}

impl View for Step {
    type V = StepV;

    open spec fn view(&self) -> StepV {
        StepV { out: text::texts(self.out@), err: text::texts(self.err@), next: self.next@ }
    }
}

/// A step that prints nothing.
pub open spec fn silent(next: ThenV) -> StepV {
    StepV { out: Seq::empty(), err: Seq::empty(), next }
}

/// A step that prints one line.
pub open spec fn prints(line: Seq<char>, next: ThenV) -> StepV {
    StepV { out: seq![line], err: Seq::empty(), next }
}

/// The line of an item of a listing; `None` where the event is no item of it.
pub open spec fn item_text(l: Listing, e: EventV, now_ms: u64) -> Option<Seq<char>> {
    match (l, e) {
        (Listing::Peers, EventV::PeerListItem(p)) => Some(peer_text(p, now_ms)),
        (Listing::Conns, EventV::ConnListItem(c)) => Some(conn_text(c, now_ms)),
        (Listing::Tokens, EventV::TokenListItem(t)) => Some(token_text(t)),
        (Listing::Groups, EventV::GroupListItem(g)) => Some(group_text(g, now_ms)),
        (Listing::Sessions, EventV::SessionListItem(s)) => Some(session_text(s)),
        (Listing::Agents, EventV::AgentListItem(a)) => Some(agent_text(a)),
        _ => None,
    }
}

/// Whether an event ends a listing.
pub open spec fn ends_listing(l: Listing, e: EventV) -> bool {
    match l {
        Listing::Peers => e is PeerListEnd,
        Listing::Conns => e is ConnListEnd,
        Listing::Tokens => e is TokenListEnd,
        Listing::Groups => e is GroupListEnd,
        Listing::Sessions => e is SessionListEnd,
        Listing::Agents => e is AgentListEnd,
    }
}

/// The report of a token that was issued.
pub open spec fn issued_text(t: TokenInfoV) -> Seq<char> {
    "issued token id="@ + codec::hex_text(t.id) + "  iss="@ + codec::hex_text(t.iss) + "  sub="@
        + codec::hex_text(t.sub) + "  exp="@ + text::decimal_text(t.exp as nat) + "  caps=["@
        + joined(cap_variants(t.caps), ", "@) + "]"@
}

/// The report of a token that was imported.
pub open spec fn imported_text(t: TokenInfoV) -> Seq<char> {
    "imported token id="@ + codec::hex_text(t.id) + " from "@ + codec::hex_text(t.iss) + " caps=["@
        + joined(cap_variants(t.caps), ", "@) + "] exp="@ + text::decimal_text(t.exp as nat)
}

/// What a client does with an event. A failure ends it, whatever it waits for.
pub open spec fn stepped(a: Await, e: EventV, now_ms: u64) -> StepV {
    if e is Failed {
        silent(ThenV::Fail(e->Failed_0))
    } else {
        match a {
            Await::Ack => if e is Done {
                silent(ThenV::Finish)
            } else {
                silent(ThenV::Unexpected)
            },
            Await::Listing(l) => if item_text(l, e, now_ms) is Some {
                prints(item_text(l, e, now_ms)->0, ThenV::More)
            } else if ends_listing(l, e) {
                silent(ThenV::Finish)
            } else {
                silent(ThenV::Unexpected)
            },
            Await::NodeId => match e {
                EventV::NodeIdValue(n) => prints(codec::hex_text(n), ThenV::Finish),
                _ => silent(ThenV::Unexpected),
            },
            Await::Status => match e {
                EventV::StatusInfo { nodeid, version, endpoint_bound } => StepV {
                    out: seq![
                        "nodeid: "@ + codec::hex_text(nodeid),
                        "version: "@ + version,
                        if endpoint_bound {
                            "endpoint_bound: true"@
                        } else {
                            "endpoint_bound: false"@
                        },
                    ],
                    err: Seq::empty(),
                    next: ThenV::Finish,
                },
                _ => silent(ThenV::Unexpected),
            },
            Await::Ticket => match e {
                EventV::TicketValue(t) => prints(t, ThenV::Finish),
                _ => silent(ThenV::Unexpected),
            },
            Await::Token => match e {
                EventV::TokenIssued { raw, info } => StepV {
                    out: Seq::empty(),
                    err: seq![issued_text(info)],
                    next: ThenV::Token(raw),
                },
                _ => silent(ThenV::Unexpected),
            },
            Await::Import => match e {
                EventV::TokenListItem(t) => StepV {
                    out: Seq::empty(),
                    err: seq![imported_text(t)],
                    next: ThenV::Ack,
                },
                _ => silent(ThenV::Ack),
            },
            Await::Group => match e {
                EventV::GroupCreated { group, token } => StepV {
                    out: seq![token],
                    err: seq![
                        "created group '"@ + group
                            + "'; you are its prime agent. To act as it, export:"@,
                        "  export WT_GROUP="@ + group + " WT_TOKEN="@ + token,
                    ],
                    next: ThenV::Finish,
                },
                _ => silent(ThenV::Unexpected),
            },
            Await::WhoAmI => match e {
                EventV::WhoAmI(w) => StepV {
                    out: seq![
                        "group:   "@ + w.group,
                        "agent:   "@ + w.agent,
                        "role:    "@ + w.role,
                        "session: "@ + match w.session {
                            Some(s) => s,
                            None => "—"@,
                        },
                    ],
                    err: Seq::empty(),
                    next: ThenV::Finish,
                },
                _ => silent(ThenV::Unexpected),
            },
            Await::Spawn => match e {
                EventV::Spawned { group, session, token, workspace } => StepV {
                    out: seq![spawned_json(group, session, token, workspace)],
                    err: seq![
                        "spawned session '"@ + session + "' in group '"@ + group + "'"@,
                        "workspace: "@ + workspace,
                        "child token: "@ + token,
                    ],
                    next: ThenV::Finish,
                },
                _ => silent(ThenV::Unexpected),
            },
            Await::Messages { follow } => match e {
                EventV::RecvMsg { from, from_name, channel, payload, ts_ms } => prints(
                    message_json(shown_name(from, from_name), channel, payload, ts_ms),
                    ThenV::More,
                ),
                EventV::RecvBacklogEnd => silent(
                    if follow {
                        ThenV::More
                    } else {
                        ThenV::Finish
                    },
                ),
                _ => silent(ThenV::Unexpected),
            },
            Await::BusMessages { follow } => match e {
                EventV::AgentMsg { session, from_agent, kind, payload, ts_ms } => prints(
                    bus_json(session, from_agent, bus::kind_name(kind), payload, ts_ms),
                    ThenV::More,
                ),
                EventV::AgentBacklogEnd => silent(
                    if follow {
                        ThenV::More
                    } else {
                        ThenV::Finish
                    },
                ),
                _ => silent(ThenV::Unexpected),
            },
        }
    }
}

fn nothing(next: Then) -> (r: Step)
    ensures
        r@ == silent(next@),
{
    let r = Step { out: Vec::new(), err: Vec::new(), next };
    assert(r@ =~= silent(next@));
    r
}

fn line(l: String, next: Then) -> (r: Step)
    ensures
        r@ == prints(l@, next@),
{
    let mut out: Vec<String> = Vec::new();
    out.push(l);
    let r = Step { out, err: Vec::new(), next };
    assert(r@ =~= prints(l@, next@));
    r
}

fn put_line(v: &mut Vec<String>, l: String)
    ensures
        text::texts(final(v)@) == text::texts(old(v)@).push(l@),
{
    v.push(l);
    assert(text::texts(v@) =~= text::texts(old(v)@).push(l@));
}

fn listed(l: Listing, e: &IpcEvent, now_ms: u64) -> (r: Step)
    requires
        !(e is Failed),
    ensures
        r@ == stepped(Await::Listing(l), e@, now_ms),
{
    match (l, e) {
        (Listing::Peers, IpcEvent::PeerListItem(p)) => line(peer_line(p, now_ms), Then::More),
        (Listing::Conns, IpcEvent::ConnListItem(c)) => line(conn_line(c, now_ms), Then::More),
        (Listing::Tokens, IpcEvent::TokenListItem(t)) => line(token_line(t), Then::More),
        (Listing::Groups, IpcEvent::GroupListItem(g)) => line(group_line(g, now_ms), Then::More),
        (Listing::Sessions, IpcEvent::SessionListItem(s)) => line(session_line(s), Then::More),
        (Listing::Agents, IpcEvent::AgentListItem(a)) => line(agent_line(a), Then::More),
        (Listing::Peers, IpcEvent::PeerListEnd) => nothing(Then::Finish),
        (Listing::Conns, IpcEvent::ConnListEnd) => nothing(Then::Finish),
        (Listing::Tokens, IpcEvent::TokenListEnd) => nothing(Then::Finish),
        (Listing::Groups, IpcEvent::GroupListEnd) => nothing(Then::Finish),
        (Listing::Sessions, IpcEvent::SessionListEnd) => nothing(Then::Finish),
        (Listing::Agents, IpcEvent::AgentListEnd) => nothing(Then::Finish),
        _ => nothing(Then::Unexpected),
    }
}

/// What a client that waits for something does with an event. Each message stands on a line of its
/// own.
pub fn step(a: Await, e: &IpcEvent, now_ms: u64) -> (r: Step)
    ensures
        r@ == stepped(a, e@, now_ms),
        (a is Messages || a is BusMessages) && r@.out.len() > 0 ==> r@.out.len() == 1 && one_line(
            r@.out[0],
        ),
{
    if let IpcEvent::Failed(f) = e {
        return nothing(Then::Fail(IpcError { code: f.code, message: f.message.clone() }));
    }
    match a {
        Await::Ack => match e {
            IpcEvent::Done => nothing(Then::Finish),
            _ => nothing(Then::Unexpected),
        },
        Await::Listing(l) => listed(l, e, now_ms),
        Await::NodeId => match e {
            IpcEvent::NodeIdValue(n) => line(n.to_string(), Then::Finish),
            _ => nothing(Then::Unexpected),
        },
        Await::Status => match e {
            IpcEvent::StatusInfo { nodeid, version, endpoint_bound } => {
                let mut r = line(
                    "nodeid: ".to_owned().concat(nodeid.to_string().as_str()),
                    Then::Finish,
                );
                put_line(&mut r.out, "version: ".to_owned().concat(version.as_str()));
                let bound = if *endpoint_bound {
                    "endpoint_bound: true"
                } else {
                    "endpoint_bound: false"
                };
                put_line(&mut r.out, bound.to_owned());
                assert(r@ =~= stepped(a, e@, now_ms));
                r
            },
            _ => nothing(Then::Unexpected),
        },
        Await::Ticket => match e {
            IpcEvent::TicketValue(t) => line(t.clone(), Then::Finish),
            _ => nothing(Then::Unexpected),
        },
        Await::Token => match e {
            IpcEvent::TokenIssued { raw, info } => {
                let mut r = nothing(Then::Token(text::bytes_copy(raw.as_slice())));
                put_line(&mut r.err, issued_line(info));
                assert(r@ =~= stepped(a, e@, now_ms));
                r
            },
            _ => nothing(Then::Unexpected),
        },
        Await::Import => match e {
            IpcEvent::TokenListItem(t) => {
                let mut r = nothing(Then::Ack);
                put_line(&mut r.err, imported_line(t));
                assert(r@ =~= stepped(a, e@, now_ms));
                r
            },
            _ => nothing(Then::Ack),
        },
        Await::Group => match e {
            IpcEvent::GroupCreated { group, token } => {
                let mut r = line(token.clone(), Then::Finish);
                put_line(
                    &mut r.err,
                    "created group '".to_owned().concat(group.as_str()).concat(
                        "'; you are its prime agent. To act as it, export:",
                    ),
                );
                put_line(
                    &mut r.err,
                    "  export WT_GROUP=".to_owned().concat(group.as_str()).concat(
                        " WT_TOKEN=",
                    ).concat(token.as_str()),
                );
                assert(r@ =~= stepped(a, e@, now_ms));
                r
            },
            _ => nothing(Then::Unexpected),
        },
        Await::WhoAmI => match e {
            IpcEvent::WhoAmIInfo(w) => {
                let mut r = line("group:   ".to_owned().concat(w.group.as_str()), Then::Finish);
                put_line(&mut r.out, "agent:   ".to_owned().concat(w.agent.as_str()));
                put_line(&mut r.out, "role:    ".to_owned().concat(w.role.as_str()));
                let session = match &w.session {
                    Some(s) => s.as_str(),
                    None => "—",
                };
                put_line(&mut r.out, "session: ".to_owned().concat(session));
                assert(r@ =~= stepped(a, e@, now_ms));
                r
            },
            _ => nothing(Then::Unexpected),
        },
        Await::Spawn => match e {
            IpcEvent::Spawned { group, session, token, workspace } => {
                let mut r = line(
                    spawned_line(
                        group.as_str(),
                        session.as_str(),
                        token.as_str(),
                        workspace.as_str(),
                    ),
                    Then::Finish,
                );
                put_line(
                    &mut r.err,
                    "spawned session '".to_owned().concat(session.as_str()).concat(
                        "' in group '",
                    ).concat(group.as_str()).concat("'"),
                );
                put_line(&mut r.err, "workspace: ".to_owned().concat(workspace.as_str()));
                put_line(&mut r.err, "child token: ".to_owned().concat(token.as_str()));
                assert(r@ =~= stepped(a, e@, now_ms));
                r
            },
            _ => nothing(Then::Unexpected),
        },
        Await::Messages { follow } => match e {
            IpcEvent::RecvMsg { from, from_name, channel, payload, ts_ms } => {
                let name = name_shown(from, from_name);
                line(
                    message_line(name.as_str(), channel.as_str(), payload.as_slice(), *ts_ms),
                    Then::More,
                )
            },
            IpcEvent::RecvBacklogEnd => if follow {
                nothing(Then::More)
            } else {
                nothing(Then::Finish)
            },
            _ => nothing(Then::Unexpected),
        },
        Await::BusMessages { follow } => match e {
            IpcEvent::AgentMsg { session, from_agent, kind, payload, ts_ms } => line(
                bus_line(
                    session.as_str(),
                    from_agent.as_str(),
                    cli::agent_kind_str(*kind),
                    payload.as_slice(),
                    *ts_ms,
                ),
                Then::More,
            ),
            IpcEvent::AgentBacklogEnd => if follow {
                nothing(Then::More)
            } else {
                nothing(Then::Finish)
            },
            _ => nothing(Then::Unexpected),
        },
    }
}

fn issued_line(t: &TokenInfo) -> (r: String)
    ensures
        r@ == issued_text(t@),
{
    "issued token id=".to_owned().concat(codec::hex_encode(t.id.as_slice()).as_str()).concat(
        "  iss=",
    ).concat(t.iss.to_string().as_str()).concat("  sub=").concat(
        t.sub.to_string().as_str(),
    ).concat("  exp=").concat(text::u64_text(t.exp).as_str()).concat("  caps=[").concat(
        join(&variants_of(&t.caps), ", ").as_str(),
    ).concat("]")
}

fn imported_line(t: &TokenInfo) -> (r: String)
    ensures
        r@ == imported_text(t@),
{
    "imported token id=".to_owned().concat(codec::hex_encode(t.id.as_slice()).as_str()).concat(
        " from ",
    ).concat(t.iss.to_string().as_str()).concat(" caps=[").concat(
        join(&variants_of(&t.caps), ", ").as_str(),
    ).concat("] exp=").concat(text::u64_text(t.exp).as_str())
}

fn name_shown(from: &NodeId, from_name: &Option<String>) -> (r: String)
    ensures
        r@ == shown_name(from@, text::opt_text(*from_name)),
{
    match from_name {
        Some(n) => n.clone(),
        None => from.to_string(),
    }
}

/// What a chat does with an event.
pub open spec fn chat_stepped(e: EventV) -> StepV {
    match e {
        EventV::RecvMsg { from, from_name, channel, payload, ts_ms } => prints(
            "["@ + shown_name(from, from_name) + "] "@ + harness::lossy_text(payload),
            ThenV::More,
        ),
        EventV::RecvBacklogEnd => silent(ThenV::More),
        _ => silent(ThenV::Finish),
    }
}

/// What a chat prints of an event: the messages, with the names of their senders. The end of the
/// backlog is passed over, and anything else ends the chat.
pub fn chat_step(e: &IpcEvent) -> (r: Step)
    ensures
        r@ == chat_stepped(e@),
{
    match e {
        IpcEvent::RecvMsg { from, from_name, payload, .. } => {
            let body = harness::from_utf8_lossy(payload.as_slice());
            line(
                "[".to_owned().concat(name_shown(from, from_name).as_str()).concat("] ").concat(
                    body.as_str(),
                ),
                Then::More,
            )
        },
        IpcEvent::RecvBacklogEnd => nothing(Then::More),
        _ => nothing(Then::Finish),
    }
}

/// A failure ends a client, and nothing is printed of it.
pub proof fn law_failure_ends_a_client(a: Await, e: EventV, now_ms: u64)
    ensures
        e is Failed <==> stepped(a, e, now_ms).next is Fail,
        e is Failed ==> stepped(a, e, now_ms) == silent(ThenV::Fail(e->Failed_0)),
{
}

/// A reader that does not follow is done at the end of the backlog; one that follows goes on.
pub proof fn law_only_followers_go_on(follow: bool, now_ms: u64)
    ensures
        stepped(Await::Messages { follow }, EventV::RecvBacklogEnd, now_ms).next is More == follow,
        stepped(Await::BusMessages { follow }, EventV::AgentBacklogEnd, now_ms).next is More
            == follow,
{
}

} // verus!
