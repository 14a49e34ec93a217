//! The state of an install: its peers, tokens and messages, and the groups, agents, sessions and
//! bus of the local orchestration.
//!
//! Every operation that changes the state is described by a function from the state before it to
//! the state after it. An operation that stamps the time comes twice: under its plain name it reads
//! the clock, and under the name ending in `_at` it takes the time as an argument.

use vstd::prelude::*;

use crate::clock;
use crate::crypto;
use crate::ipc::SelectorV;
use crate::node;
use crate::node::NodeId;
use crate::queries;
use crate::rows::AgentMsgRow;
use crate::rows::AgentRow;
use crate::rows::AgentV;
use crate::rows::BusV;
use crate::rows::Direction;
use crate::rows::GroupRow;
use crate::rows::GroupV;
use crate::rows::MessageRow;
use crate::rows::MessageV;
use crate::rows::MetaRow;
use crate::rows::MetaV;
use crate::rows::PeerRow;
use crate::rows::PeerSelectorBytes;
use crate::rows::PeerV;
use crate::rows::SessionRow;
use crate::rows::SessionV;
use crate::rows::TokenRow;
use crate::rows::TokenV;
use crate::table;
use crate::table::Record;
use crate::text;
use crate::token::Cap;
use crate::token::TokenId;

verus! {

/// How many messages of one session the bus keeps.
pub const MAX_MSGS_PER_SESSION: u64 = 5000;

/// The number of schema steps there are.
pub const SCHEMA_STEPS: i64 = 3;

/// The model of the state.
#[verifier::ext_equal]
pub struct StoreV {
    pub meta: Seq<MetaV>,
    pub peers: Seq<PeerV>,
    pub tokens: Seq<TokenV>,
    pub messages: Seq<MessageV>,
    pub groups: Seq<GroupV>,
    pub agents: Seq<AgentV>,
    pub sessions: Seq<SessionV>,
    pub bus: Seq<BusV>,
    /// How many messages of one session the bus keeps.
    pub retention: u64,
}

/// Why an operation was refused.
#[derive(Debug, Clone, Copy, PartialEq, Eq, Structural)]
pub enum StoreError {
    /// Another peer has the name.
    PeerNameTaken,
    /// There is no sequence number left.
    SeqExhausted,
}

impl StoreError {
    /// The error in words.
    pub fn to_string(&self) -> (r: String)
        ensures
            r@ == match *self {
                StoreError::PeerNameTaken => "UNIQUE constraint failed: peers.name"@,
                StoreError::SeqExhausted => "sequence numbers exhausted"@,
            },
    {
        match self {
            StoreError::PeerNameTaken => "UNIQUE constraint failed: peers.name".to_owned(),
            StoreError::SeqExhausted => "sequence numbers exhausted".to_owned(),
        }
    }

    /// The error in words, with what lies behind it.
    pub fn explained(&self) -> (r: String)
        ensures
            r@ == explanation(*self),
    {
        match self {
            StoreError::PeerNameTaken =>
                "UNIQUE constraint failed: peers.name: Error code 2067: A UNIQUE constraint failed".to_owned(),
            StoreError::SeqExhausted => "sequence numbers exhausted".to_owned(),
        }
    }
}

/// A refusal in words, with what lies behind it.
pub open spec fn explanation(e: StoreError) -> Seq<char> {
    match e {
        StoreError::PeerNameTaken =>
            "UNIQUE constraint failed: peers.name: Error code 2067: A UNIQUE constraint failed"@,
        StoreError::SeqExhausted => "sequence numbers exhausted"@,
    }
}

// ===== what the operations do =====

/// The identifier of the channel with the given name: the first half of the name's digest.
pub open spec fn channel_key(name: Seq<char>) -> Seq<u8> {
    crypto::blake3_digest(text::utf8(name)).take(16)
}

/// The number that a stored schema version writes, if it writes one.
pub open spec fn version_of(stored: Option<Seq<u8>>) -> int {
    match stored {
        None => 0,
        Some(b) => match signed_value(b) {
            Some(v) => v,
            None => 0,
        },
    }
}

/// The number that ASCII digits write.
pub open spec fn ascii_value(b: Seq<u8>) -> nat
    decreases b.len(),
{
    if b.len() == 0 {
        0
    } else {
        ascii_value(b.drop_last()) * 10 + (b.last() - 48) as nat
    }
}

/// Whether the bytes are ASCII digits, and at least one.
pub open spec fn is_ascii_decimal(b: Seq<u8>) -> bool {
    b.len() > 0 && forall|i: int| 0 <= i < b.len() ==> 48 <= #[trigger] b[i] <= 57
}

/// The bytes behind a sign, where there is one.
pub open spec fn unsigned_part(b: Seq<u8>) -> Seq<u8> {
    if b.len() > 0 && (b[0] == 43 || b[0] == 45) {
        b.skip(1)
    } else {
        b
    }
}

/// The signed 64-bit number that the bytes write in decimal, if they write one.
pub open spec fn signed_value(b: Seq<u8>) -> Option<int> {
    let digits = unsigned_part(b);
    let negative = b.len() > 0 && b[0] == 45;
    let v = if negative {
        -(ascii_value(digits) as int)
    } else {
        ascii_value(digits) as int
    };
    if is_ascii_decimal(digits) && i64::MIN <= v <= i64::MAX {
        Some(v)
    } else {
        None
    }
}

/// The settings once every schema step has run.
pub open spec fn meta_upgraded(meta: Seq<MetaV>) -> Seq<MetaV> {
    let stored = table::first_of(meta, queries::meta_named("schema_version"@));
    let version = version_of(
        match stored {
            Some(m) => Some(m.value),
            None => None,
        },
    );
    if version >= SCHEMA_STEPS {
        meta
    } else {
        table::without(meta, queries::meta_named("schema_version"@)).push(
            MetaV { key: "schema_version"@, value: seq![51u8] },
        )
    }
}

/// The state with a peer added: under its identifier if it is known, else as a new row. `None`
/// where another peer has the name.
pub open spec fn peer_added(
    s: StoreV,
    nodeid: Seq<u8>,
    name: Seq<char>,
    addr_blob: Option<Seq<u8>>,
    now_ms: u64,
) -> Option<StoreV> {
    let known = queries::peer_selected(SelectorV::NodeId(nodeid));
    if table::any_of(s.peers, queries::peer_name_taken(nodeid, name)) {
        None
    } else if table::any_of(s.peers, known) {
        Some(
            StoreV {
                peers: table::changed_where(
                    s.peers,
                    known,
                    queries::peer_renamed(name, addr_blob),
                ),
                ..s
            },
        )
    } else {
        Some(
            StoreV {
                peers: s.peers.push(
                    PeerV { nodeid, name, added_at_ms: now_ms, last_seen_ms: None, addr_blob },
                ),
                ..s
            },
        )
    }
}

/// The state without the selected peer.
pub open spec fn peer_removed(s: StoreV, sel: SelectorV) -> StoreV {
    StoreV { peers: table::without(s.peers, queries::peer_selected(sel)), ..s }
}

/// The selected peer.
pub open spec fn peer_of(s: StoreV, sel: SelectorV) -> Option<PeerV> {
    table::first_of(s.peers, queries::peer_selected(sel))
}

/// The state with a peer seen at the given time.
pub open spec fn peer_touched(s: StoreV, nodeid: Seq<u8>, now_ms: u64) -> StoreV {
    StoreV {
        peers: table::changed_where(
            s.peers,
            queries::peer_selected(SelectorV::NodeId(nodeid)),
            queries::peer_seen(now_ms),
        ),
        ..s
    }
}

/// The state with a token entered. Of a token that is there already, the bytes and the state of
/// revocation are replaced.
pub open spec fn token_inserted(s: StoreV, t: TokenV) -> StoreV {
    let known = queries::token_with_id(t.id);
    if table::any_of(s.tokens, known) {
        StoreV {
            tokens: table::changed_where(
                s.tokens,
                known,
                queries::token_replaced(t.raw, t.revoked),
            ),
            ..s
        }
    } else {
        StoreV { tokens: s.tokens.push(t), ..s }
    }
}

/// The token of the given identifier.
pub open spec fn token_of(s: StoreV, id: Seq<u8>) -> Option<TokenV> {
    table::first_of(s.tokens, queries::token_with_id(id))
}

/// The state with a token revoked.
pub open spec fn token_revoked(s: StoreV, id: Seq<u8>) -> StoreV {
    StoreV {
        tokens: table::changed_where(
            s.tokens,
            queries::token_with_id(id),
            queries::token_revoked(),
        ),
        ..s
    }
}

/// The last sequence number that `sender` has used on a channel.
pub open spec fn last_message_seq(s: StoreV, sender: Seq<u8>, channel_id: Seq<u8>) -> u64 {
    table::highest(
        s.messages,
        queries::message_on_channel(sender, channel_id),
        queries::message_seq(),
    )
}

/// The message that is enqueued next for `peer` on a channel.
pub open spec fn next_outbound(
    s: StoreV,
    sender: Seq<u8>,
    peer: Seq<u8>,
    channel: Seq<char>,
    payload: Seq<u8>,
    now_ms: u64,
) -> MessageV {
    MessageV {
        sender,
        channel_id: channel_key(channel),
        seq: (last_message_seq(s, sender, channel_key(channel)) + 1) as u64,
        direction: Direction::Out,
        channel,
        peer_nodeid: peer,
        payload,
        enqueued_at_ms: now_ms,
        delivered_at_ms: None,
    }
}

/// The state with a message appended.
pub open spec fn message_appended(s: StoreV, m: MessageV) -> StoreV {
    StoreV { messages: s.messages.push(m), ..s }
}

/// The elements of `s` in the order of their first appearance.
pub open spec fn distinct<A>(s: Seq<A>) -> Seq<A>
    decreases s.len(),
{
    if s.len() == 0 {
        s
    } else {
        let rest = distinct(s.drop_last());
        if rest.contains(s.last()) {
            rest
        } else {
            rest.push(s.last())
        }
    }
}

/// The peers with undelivered messages, in the order in which these were enqueued.
pub open spec fn pending_peers(s: StoreV) -> Seq<Seq<u8>> {
    distinct(
        s.messages.filter(queries::message_pending()).map_values(|m: MessageV| m.peer_nodeid),
    )
}

/// The undelivered messages for a peer, oldest first.
pub open spec fn pending_for(s: StoreV, peer: Seq<u8>) -> Seq<MessageV> {
    table::stable_order(
        s.messages.filter(queries::message_pending_for(peer)),
        queries::messages_by_time(),
    )
}

/// The state with an outbound message delivered.
pub open spec fn delivered(
    s: StoreV,
    sender: Seq<u8>,
    channel_id: Seq<u8>,
    seq: u64,
    now_ms: u64,
) -> StoreV {
    StoreV {
        messages: table::changed_where(
            s.messages,
            queries::outbound_with_key(sender, channel_id, seq),
            queries::message_delivered(now_ms),
        ),
        ..s
    }
}

/// Whether a message with this key was recorded before.
pub open spec fn already_seen(s: StoreV, sender: Seq<u8>, channel_id: Seq<u8>, seq: u64) -> bool {
    table::any_of(s.messages, queries::message_with_key(sender, channel_id, seq))
}

/// The state with an inbound message recorded, unless its key was there before.
pub open spec fn recorded(
    s: StoreV,
    sender: Seq<u8>,
    channel: Seq<char>,
    seq: u64,
    payload: Seq<u8>,
    ts_ms: u64,
    now_ms: u64,
) -> StoreV {
    if already_seen(s, sender, channel_key(channel), seq) {
        s
    } else {
        message_appended(
            s,
            MessageV {
                sender,
                channel_id: channel_key(channel),
                seq,
                direction: Direction::In,
                channel,
                peer_nodeid: sender,
                payload,
                enqueued_at_ms: ts_ms,
                delivered_at_ms: Some(now_ms),
            },
        )
    }
}

/// The inbound messages that pass the filters that are given, oldest first.
pub open spec fn inbox(
    s: StoreV,
    peer: Option<Seq<u8>>,
    channel: Option<Seq<char>>,
    after_ms: Option<u64>,
) -> Seq<MessageV> {
    table::stable_order(
        s.messages.filter(queries::message_inbound(peer, channel, after_ms)),
        queries::messages_by_time(),
    )
}

/// Whether there is a group of the given name.
pub open spec fn has_group(s: StoreV, name: Seq<char>) -> bool {
    table::any_of(s.groups, queries::group_named(name))
}

/// The state with a group created, unless there is one of that name.
pub open spec fn group_created(s: StoreV, name: Seq<char>, now_ms: u64) -> StoreV {
    if has_group(s, name) {
        s
    } else {
        StoreV { groups: s.groups.push(GroupV { name, created_at_ms: now_ms }), ..s }
    }
}

/// Whether an agent cannot be registered: its name or its token is taken.
pub open spec fn agent_refused(s: StoreV, a: AgentV) -> bool {
    table::any_of(s.agents, queries::agent_in_the_way(a.group_name, a.name, a.token_hash))
}

/// The state with an agent registered, unless it is refused.
pub open spec fn agent_registered(s: StoreV, a: AgentV) -> StoreV {
    if agent_refused(s, a) {
        s
    } else {
        StoreV { agents: s.agents.push(a), ..s }
    }
}

/// The agent whose token has the given digest.
pub open spec fn agent_by_hash(s: StoreV, hash: Seq<u8>) -> Option<AgentV> {
    table::first_of(s.agents, queries::agent_with_token(hash))
}

/// The agent of the given group and name.
pub open spec fn agent_of(s: StoreV, group: Seq<char>, name: Seq<char>) -> Option<AgentV> {
    table::first_of(s.agents, queries::agent_named(group, name))
}

/// The agents of a group, or all, in the order of their registration.
pub open spec fn agents_of(s: StoreV, group: Option<Seq<char>>) -> Seq<AgentV> {
    table::stable_order(s.agents.filter(queries::agent_of_group(group)), queries::agents_by_age())
}

/// The state with an agent's status set.
pub open spec fn status_set(
    s: StoreV,
    group: Seq<char>,
    name: Seq<char>,
    status: Seq<char>,
    pid: Option<i64>,
    now_ms: u64,
) -> StoreV {
    StoreV {
        agents: table::changed_where(
            s.agents,
            queries::agent_named(group, name),
            queries::agent_with_status(status, pid, now_ms),
        ),
        ..s
    }
}

/// The state with an agent seen at the given time.
pub open spec fn agent_touched(s: StoreV, group: Seq<char>, name: Seq<char>, now_ms: u64) -> StoreV {
    StoreV {
        agents: table::changed_where(
            s.agents,
            queries::agent_named(group, name),
            queries::agent_seen(now_ms),
        ),
        ..s
    }
}

/// The state once what an earlier daemon left running is marked as ended.
pub open spec fn reconciled(s: StoreV) -> StoreV {
    StoreV {
        agents: table::changed_where(s.agents, queries::agent_live(), queries::agent_exited()),
        sessions: table::changed_where(
            s.sessions,
            queries::session_active(),
            queries::session_shut(),
        ),
        ..s
    }
}

/// Whether there is a session of the given group and name.
pub open spec fn has_session(s: StoreV, group: Seq<char>, name: Seq<char>) -> bool {
    table::any_of(s.sessions, queries::session_named(group, name))
}

/// The state with a session created, unless there is one of that group and name.
pub open spec fn session_created(s: StoreV, row: SessionV) -> StoreV {
    if has_session(s, row.group_name, row.name) {
        s
    } else {
        StoreV { sessions: s.sessions.push(row), ..s }
    }
}

/// The session of the given group and name.
pub open spec fn session_of(s: StoreV, group: Seq<char>, name: Seq<char>) -> Option<SessionV> {
    table::first_of(s.sessions, queries::session_named(group, name))
}

/// The sessions of a group in the order of their creation.
pub open spec fn sessions_of(s: StoreV, group: Seq<char>) -> Seq<SessionV> {
    table::stable_order(
        s.sessions.filter(queries::session_of_group(group)),
        queries::sessions_by_age(),
    )
}

/// The sessions of a name, one of each group that has one, in the order of their creation.
pub open spec fn sessions_called(s: StoreV, name: Seq<char>) -> Seq<SessionV> {
    table::stable_order(
        s.sessions.filter(queries::session_called(name)),
        queries::sessions_by_age(),
    )
}

/// The state with a session closed.
pub open spec fn session_closed(s: StoreV, group: Seq<char>, name: Seq<char>) -> StoreV {
    StoreV {
        sessions: table::changed_where(
            s.sessions,
            queries::session_named(group, name),
            queries::session_shut(),
        ),
        ..s
    }
}

/// The last sequence number used in a session.
pub open spec fn last_bus_seq(s: StoreV, group: Seq<char>, session: Seq<char>) -> u64 {
    table::highest(s.bus, queries::bus_of_session(group, session), queries::bus_seq())
}

/// The message that is enqueued next in a session.
pub open spec fn next_bus(
    s: StoreV,
    group: Seq<char>,
    session: Seq<char>,
    from_agent: Seq<char>,
    to_agent: Seq<char>,
    kind: Seq<char>,
    payload: Seq<u8>,
    now_ms: u64,
) -> BusV {
    BusV {
        group_name: group,
        session_name: session,
        seq: (last_bus_seq(s, group, session) + 1) as u64,
        from_agent,
        to_agent,
        kind,
        payload,
        enqueued_at_ms: now_ms,
        consumed_at_ms: None,
    }
}

/// The state with a message on the bus, and without those that it pushes out.
pub open spec fn bus_appended(s: StoreV, m: BusV) -> StoreV {
    StoreV {
        bus: table::without(
            s.bus.push(m),
            queries::bus_outlived(m.group_name, m.session_name, m.seq, s.retention),
        ),
        ..s
    }
}

/// The backlog of an agent: the messages to it that pass the filters that are given, oldest first.
pub open spec fn backlog(
    s: StoreV,
    group: Seq<char>,
    to_agent: Seq<char>,
    session: Option<Seq<char>>,
    after_ms: Option<u64>,
    unconsumed_only: bool,
) -> Seq<BusV> {
    table::stable_order(
        s.bus.filter(queries::bus_backlog(group, to_agent, session, after_ms, unconsumed_only)),
        queries::bus_by_time(),
    )
}

/// The state with a message on the bus read.
pub open spec fn consumed(
    s: StoreV,
    group: Seq<char>,
    session: Seq<char>,
    seq: u64,
    now_ms: u64,
) -> StoreV {
    StoreV {
        bus: table::changed_where(
            s.bus,
            queries::bus_with_key(group, session, seq),
            queries::bus_consumed(now_ms),
        ),
        ..s
    }
}

/// The unread messages of one kind to an agent, by their sequence numbers.
pub open spec fn pending_kind(
    s: StoreV,
    group: Seq<char>,
    to_agent: Seq<char>,
    kind: Seq<char>,
) -> Seq<BusV> {
    table::stable_order(
        s.bus.filter(queries::bus_pending(group, to_agent, kind)),
        queries::bus_by_seq(),
    )
}

/// The transcript of a session behind a sequence number.
pub open spec fn session_log(
    s: StoreV,
    group: Seq<char>,
    session: Seq<char>,
    after_seq: u64,
) -> Seq<BusV> {
    table::stable_order(
        s.bus.filter(queries::bus_log(group, session, after_seq)),
        queries::bus_by_seq(),
    )
}

/// Everything said in a group after a point in time, interleaved.
pub open spec fn group_feed(s: StoreV, group: Seq<char>, after_ms: u64) -> Seq<BusV> {
    table::stable_order(
        s.bus.filter(queries::bus_feed(group, after_ms)),
        queries::bus_interleaved(),
    )
}

// ===== the store =====

/// The number of the current schema.
pub fn target_schema_version() -> (r: i64)
    ensures
        r == SCHEMA_STEPS,
{
    SCHEMA_STEPS
}

/// Reads a stored schema version. What is not a number counts as none.
pub fn stored_version(stored: Option<&[u8]>) -> (r: i64)
    ensures
        r == version_of(
            match stored {
                Some(b) => Some(b@),
                None => None,
            },
        ),
{
    let b = match stored {
        Some(b) => b,
        None => return 0,
    };
    let signed = b.len() > 0 && (b[0] == 43 || b[0] == 45);
    let negative = b.len() > 0 && b[0] == 45;
    let start: usize = if signed {
        1
    } else {
        0
    };
    let ghost digits = unsigned_part(b@);
    assert(b@.skip(start as int) =~= digits);
    if start == b.len() {
        return 0;
    }
    let mut v: i128 = 0;
    let mut i: usize = start;
    assert(digits.take(0) =~= Seq::<u8>::empty());
    while i < b.len()
        invariant
            start <= i <= b.len(),
            stored == Some(b),
            digits == b@.skip(start as int),
            digits == unsigned_part(b@),
            negative == (b@.len() > 0 && b@[0] == 45),
            0 <= v <= 0x8000_0000_0000_0000,
            v == ascii_value(digits.take(i - start)),
            forall|j: int| 0 <= j < i - start ==> 48 <= #[trigger] digits[j] <= 57,
        decreases b.len() - i,
    {
        let c = b[i];
        let ghost k = i - start;
        assert(c == digits[k]);
        if c < 48 || c > 57 {
            assert(!is_ascii_decimal(digits));
            return 0;
        }
        assert(digits.take(k + 1).drop_last() =~= digits.take(k));
        proof {
            lemma_ascii_prefix(digits, k + 1);
        }
        v = v * 10 + (c - 48) as i128;
        if v > 0x8000_0000_0000_0000 {
            return 0;
        }
        i = i + 1;
    }
    assert(digits.take(i - start) =~= digits);
    if negative {
        (-v) as i64
    } else if v > i64::MAX as i128 {
        0
    } else {
        v as i64
    }
}

proof fn lemma_ascii_prefix(b: Seq<u8>, n: int)
    requires
        0 <= n <= b.len(),
    ensures
        ascii_value(b.take(n)) <= ascii_value(b),
    decreases b.len(),
{
    if n == b.len() {
        assert(b.take(n) =~= b);
    } else {
        lemma_ascii_prefix(b.drop_last(), n);
        assert(b.drop_last().take(n) =~= b.take(n));
    }
}

/// How many of the schema steps a version has behind it.
pub open spec fn steps_done(version: int) -> int {
    if version < 0 {
        0
    } else if version > SCHEMA_STEPS {
        SCHEMA_STEPS as int
    } else {
        version
    }
}

/// The schema steps that are still to run, as a range of indices: every step whose number is
/// greater than the stored version.
pub fn pending_migrations(stored: Option<&[u8]>) -> (r: (usize, usize))
    ensures
        r.1 == SCHEMA_STEPS,
        r.0 == steps_done(
            version_of(
                match stored {
                    Some(b) => Some(b@),
                    None => None,
                },
            ),
        ),
{
    let v = stored_version(stored);
    let from: usize = if v < 0 {
        0
    } else if v > SCHEMA_STEPS {
        SCHEMA_STEPS as usize
    } else {
        v as usize
    };
    (from, SCHEMA_STEPS as usize)
}

/// The identifier of the channel with the given name.
pub fn channel_id(name: &str) -> (r: [u8; 16])
    ensures
        r@ == channel_key(name@),
{
    let h = crypto::digest(name.as_bytes());
    node::fixed(h.as_slice())
}

/// The state of an install.
pub struct Store {
    meta: Vec<MetaRow>,
    peers: Vec<PeerRow>,
    tokens: Vec<TokenRow>,
    messages: Vec<MessageRow>,
    groups: Vec<GroupRow>,
    agents: Vec<AgentRow>,
    sessions: Vec<SessionRow>,
    bus: Vec<AgentMsgRow>,
    retention: u64,
}

impl View for Store {
    type V = StoreV;

    closed spec fn view(&self) -> StoreV {
        StoreV {
            meta: table::rows(self.meta@),
            peers: table::rows(self.peers@),
            tokens: table::rows(self.tokens@),
            messages: table::rows(self.messages@),
            groups: table::rows(self.groups@),
            agents: table::rows(self.agents@),
            sessions: table::rows(self.sessions@),
            bus: table::rows(self.bus@),
            retention: self.retention,
        }
    }
}

/// The tables of a store.
pub struct Saved<'a> {
    pub meta: &'a Vec<MetaRow>,
    pub peers: &'a Vec<PeerRow>,
    pub tokens: &'a Vec<TokenRow>,
    pub messages: &'a Vec<MessageRow>,
    pub groups: &'a Vec<GroupRow>,
    pub agents: &'a Vec<AgentRow>,
    pub sessions: &'a Vec<SessionRow>,
    pub bus: &'a Vec<AgentMsgRow>,
}

/// The state once it was saved and loaded again.
pub open spec fn reopened(s: StoreV) -> StoreV {
    StoreV { meta: meta_upgraded(s.meta), ..s }
}

/// The state of a new install.
pub open spec fn empty_store(retention: u64) -> StoreV {
    StoreV {
        meta: meta_upgraded(Seq::empty()),
        peers: Seq::empty(),
        tokens: Seq::empty(),
        messages: Seq::empty(),
        groups: Seq::empty(),
        agents: Seq::empty(),
        sessions: Seq::empty(),
        bus: Seq::empty(),
        retention,
    }
}

/// Appends a row to a table.
fn append_row<R: Record>(v: &mut Vec<R>, row: R)
    ensures
        table::rows(final(v)@) == table::rows(old(v)@).push(row@),
{
    v.push(row);
    assert(table::rows(v@) =~= table::rows(old(v)@).push(row@));
}

impl Store {
    /// The state of a new install.
    pub fn new() -> (r: Self)
        ensures
            r@ == empty_store(MAX_MSGS_PER_SESSION),
    {
        Store::with_retention(MAX_MSGS_PER_SESSION)
    }

    /// The state of a new install whose bus keeps the given number of messages of a session.
    pub fn with_retention(retention: u64) -> (r: Self)
        ensures
            r@ == empty_store(retention),
    {
        let r = Store::load(
            Vec::new(),
            Vec::new(),
            Vec::new(),
            Vec::new(),
            Vec::new(),
            Vec::new(),
            Vec::new(),
            Vec::new(),
            retention,
        );
        assert(r@ =~= empty_store(retention));
        r
    }

    /// The state made of the given tables, its settings brought up to the current schema.
    pub fn load(
        meta: Vec<MetaRow>,
        peers: Vec<PeerRow>,
        tokens: Vec<TokenRow>,
        messages: Vec<MessageRow>,
        groups: Vec<GroupRow>,
        agents: Vec<AgentRow>,
        sessions: Vec<SessionRow>,
        bus: Vec<AgentMsgRow>,
        retention: u64,
    ) -> (r: Self)
        ensures
            r@ == (StoreV {
                meta: meta_upgraded(table::rows(meta@)),
                peers: table::rows(peers@),
                tokens: table::rows(tokens@),
                messages: table::rows(messages@),
                groups: table::rows(groups@),
                agents: table::rows(agents@),
                sessions: table::rows(sessions@),
                bus: table::rows(bus@),
                retention,
            }),
    {
        let mut meta = meta;
        let key = queries::MetaNamed { key: "schema_version".to_owned() };
        let stored = table::find(&meta, &key);
        let version = match &stored {
            Some(m) => stored_version(Some(m.value.as_slice())),
            None => stored_version(None),
        };
        if version < target_schema_version() {
            table::delete(&mut meta, &key);
            let mut value: Vec<u8> = Vec::new();
            value.push(51);
            assert(value@ =~= seq![51u8]);
            append_row(&mut meta, MetaRow { key: "schema_version".to_owned(), value });
        }
        Store { meta, peers, tokens, messages, groups, agents, sessions, bus, retention }
    }

    /// The tables, to be kept where `load` finds them again.
    pub fn saved(&self) -> (r: Saved<'_>)
        ensures
            table::rows(r.meta@) == self@.meta,
            table::rows(r.peers@) == self@.peers,
            table::rows(r.tokens@) == self@.tokens,
            table::rows(r.messages@) == self@.messages,
            table::rows(r.groups@) == self@.groups,
            table::rows(r.agents@) == self@.agents,
            table::rows(r.sessions@) == self@.sessions,
            table::rows(r.bus@) == self@.bus,
    {
        Saved {
            meta: &self.meta,
            peers: &self.peers,
            tokens: &self.tokens,
            messages: &self.messages,
            groups: &self.groups,
            agents: &self.agents,
            sessions: &self.sessions,
            bus: &self.bus,
        }
    }

    /// The setting of the given key.
    pub fn meta_get(&self, key: &str) -> (r: Option<Vec<u8>>)
        ensures
            text::opt_bytes(r) == match table::first_of(self@.meta, queries::meta_named(key@)) {
                Some(m) => Some(m.value),
                None => None,
            },
    {
        match table::find(&self.meta, &queries::MetaNamed { key: key.to_owned() }) {
            Some(m) => Some(m.value),
            None => None,
        }
    }

    // ----- peers -----

    /// Adds a peer, or renames it. A known peer keeps its address where no new one is given.
    /// Refused where another peer has the name.
    pub fn peer_add_at(
        &mut self,
        nodeid: NodeId,
        name: &str,
        addr_blob: Option<Vec<u8>>,
        now_ms: u64,
    ) -> (r: Result<(), StoreError>)
        ensures
            match peer_added(old(self)@, nodeid@, name@, text::opt_bytes(addr_blob), now_ms) {
                Some(s) => r is Ok && final(self)@ == s,
                None => r == Err::<(), StoreError>(StoreError::PeerNameTaken) && final(self)@
                    == old(self)@,
            },
    {
        let name = name.to_owned();
        if table::any(&self.peers, &queries::PeerNameTaken { nodeid, name: name.clone() }) {
            return Err(StoreError::PeerNameTaken);
        }
        let known = queries::PeerSelected { sel: PeerSelectorBytes::NodeId(nodeid) };
        if table::any(&self.peers, &known) {
            table::update(&mut self.peers, &known, &queries::PeerRenamed { name, addr_blob });
        } else {
            append_row(
                &mut self.peers,
                PeerRow { nodeid, name, added_at_ms: now_ms, last_seen_ms: None, addr_blob },
            );
        }
        Ok(())
    }

    /// Adds a peer, or renames it, now.
    pub fn peer_add(
        &mut self,
        nodeid: NodeId,
        name: &str,
        addr_blob: Option<Vec<u8>>,
    ) -> (r: Result<(), StoreError>)
        ensures
            exists|now_ms: u64|
                match #[trigger] peer_added(
                    old(self)@,
                    nodeid@,
                    name@,
                    text::opt_bytes(addr_blob),
                    now_ms,
                ) {
                    Some(s) => r is Ok && final(self)@ == s,
                    None => r == Err::<(), StoreError>(StoreError::PeerNameTaken) && final(self)@
                        == old(self)@,
                },
    {
        let now_ms: u64 = clock::unix_ms();
        self.peer_add_at(nodeid, name, addr_blob, now_ms)
    }

    /// Removes the selected peer. Returns how many rows that were.
    pub fn peer_remove(&mut self, sel: &PeerSelectorBytes) -> (n: usize)
        ensures
            final(self)@ == peer_removed(old(self)@, sel@),
            n == old(self)@.peers.filter(queries::peer_selected(sel@)).len(),
    {
        let cond = queries::PeerSelected { sel: selector_copy(sel) };
        table::delete(&mut self.peers, &cond)
    }

    /// The selected peer.
    pub fn peer_get(&self, sel: &PeerSelectorBytes) -> (r: Option<PeerRow>)
        ensures
            table::opt_row(r) == peer_of(self@, sel@),
    {
        table::find(&self.peers, &queries::PeerSelected { sel: selector_copy(sel) })
    }

    /// All peers, by name.
    pub fn peer_list(&self) -> (r: Vec<PeerRow>)
        ensures
            table::rows(r@) == table::stable_order(self@.peers, queries::peers_by_name()),
    {
        proof {
            lemma_filter_always(self@.peers);
        }
        table::select_all(&self.peers, &table::Always, &queries::PeersByName)
    }

    /// Notes that a peer was seen at the given time.
    pub fn peer_touch_seen_at(&mut self, nodeid: &NodeId, now_ms: u64)
        ensures
            final(self)@ == peer_touched(old(self)@, nodeid@, now_ms),
    {
        let known = queries::PeerSelected { sel: PeerSelectorBytes::NodeId(*nodeid) };
        table::update(&mut self.peers, &known, &queries::PeerSeen { now_ms });
    }

    /// Notes that a peer is seen now.
    pub fn peer_touch_seen(&mut self, nodeid: &NodeId)
        ensures
            exists|now_ms: u64| final(self)@ == #[trigger] peer_touched(old(self)@, nodeid@, now_ms),
    {
        let now_ms: u64 = clock::unix_ms();
        self.peer_touch_seen_at(nodeid, now_ms);
    }

    // ----- tokens -----

    /// Enters a token, or replaces the bytes and the revocation of one that is there.
    pub fn token_insert(&mut self, row: &TokenRow)
        ensures
            final(self)@ == token_inserted(old(self)@, row@),
    {
        let known = queries::TokenWithId { id: row.id };
        if table::any(&self.tokens, &known) {
            let change = queries::TokenReplaced {
                raw: text::bytes_copy(row.raw.as_slice()),
                revoked: row.revoked,
            };
            table::update(&mut self.tokens, &known, &change);
        } else {
            append_row(&mut self.tokens, row.copy_row());
        }
    }

    /// All tokens, those that expire last first.
    pub fn token_list(&self) -> (r: Vec<TokenRow>)
        ensures
            table::rows(r@) == table::stable_order(self@.tokens, queries::tokens_by_expiry()),
    {
        proof {
            lemma_filter_always(self@.tokens);
        }
        table::select_all(&self.tokens, &table::Always, &queries::TokensByExpiry)
    }

    /// The token of the given identifier.
    pub fn token_find(&self, id: &TokenId) -> (r: Option<TokenRow>)
        ensures
            table::opt_row(r) == token_of(self@, id@),
    {
        table::find(&self.tokens, &queries::TokenWithId { id: *id })
    }

    /// The usable token from `iss` to `sub` that expires last.
    pub fn find_token_with_cap(
        &self,
        iss: NodeId,
        sub: NodeId,
        required: Cap,
        now_secs: u64,
    ) -> (r: Option<TokenRow>)
        ensures
            ({
                let found = table::stable_order(
                    self@.tokens.filter(
                        queries::token_usable(iss@, sub@, required, now_secs),
                    ),
                    queries::tokens_by_expiry(),
                );
                table::opt_row(r) == if found.len() == 0 {
                    None
                } else {
                    Some(found[0])
                }
            }),
    {
        let cond = queries::TokenUsable { iss, sub, cap: required, now_secs };
        let mut found = table::select_all(&self.tokens, &cond, &queries::TokensByExpiry);
        let ghost all = found@;
        if found.len() == 0 {
            None
        } else {
            let first = found.remove(0);
            assert(first@ == table::rows(all)[0]);
            Some(first)
        }
    }

    /// Revokes a token. Returns how many rows that were.
    pub fn token_revoke(&mut self, id: &TokenId) -> (n: usize)
        ensures
            final(self)@ == token_revoked(old(self)@, id@),
            n == old(self)@.tokens.filter(queries::token_with_id(id@)).len(),
    {
        let cond = queries::TokenWithId { id: *id };
        table::update(&mut self.tokens, &cond, &queries::TokenRevoked)
    }

    // ----- messages between peers -----

    /// Appends an outbound message. Its sequence number is one more than the highest that the
    /// sender has used on the channel.
    pub fn outbox_enqueue_at(
        &mut self,
        sender: NodeId,
        peer_nodeid: NodeId,
        channel: &str,
        payload: Vec<u8>,
        now_ms: u64,
    ) -> (r: Result<MessageRow, StoreError>)
        ensures
            ({
                let full = last_message_seq(old(self)@, sender@, channel_key(channel@)) == u64::MAX;
                let m = next_outbound(
                    old(self)@,
                    sender@,
                    peer_nodeid@,
                    channel@,
                    payload@,
                    now_ms,
                );
                match r {
                    Ok(row) => !full && row@ == m && final(self)@ == message_appended(
                        old(self)@,
                        m,
                    ),
                    Err(e) => full && e is SeqExhausted && final(self)@ == old(self)@,
                }
            }),
    {
        let cid = channel_id(channel);
        let cond = queries::MessageOnChannel { sender, channel_id: cid };
        let last: u64 = table::top(&self.messages, &cond, &queries::MessageSeq);
        if last == u64::MAX {
            return Err(StoreError::SeqExhausted);
        }
        let row = MessageRow {
            sender,
            channel_id: cid,
            seq: last + 1,
            direction: Direction::Out,
            channel: channel.to_owned(),
            peer_nodeid,
            payload,
            enqueued_at_ms: now_ms,
            delivered_at_ms: None,
        };
        append_row(&mut self.messages, row.copy_row());
        Ok(row)
    }

    /// Appends an outbound message now.
    pub fn outbox_enqueue(
        &mut self,
        sender: NodeId,
        peer_nodeid: NodeId,
        channel: &str,
        payload: Vec<u8>,
    ) -> (r: Result<MessageRow, StoreError>)
        ensures
            exists|now_ms: u64|
                ({
                    let m = #[trigger] next_outbound(
                        old(self)@,
                        sender@,
                        peer_nodeid@,
                        channel@,
                        payload@,
                        now_ms,
                    );
                    let full = last_message_seq(old(self)@, sender@, channel_key(channel@))
                        == u64::MAX;
                    match r {
                        Ok(row) => !full && row@ == m && final(self)@ == message_appended(
                            old(self)@,
                            m,
                        ),
                        Err(e) => full && e is SeqExhausted && final(self)@ == old(self)@,
                    }
                }),
    {
        let now_ms: u64 = clock::unix_ms();
        let ghost m = next_outbound(self@, sender@, peer_nodeid@, channel@, payload@, now_ms);
        self.outbox_enqueue_at(sender, peer_nodeid, channel, payload, now_ms)
    }

    /// The peers that have undelivered messages.
    pub fn outbox_pending_peers(&self) -> (r: Vec<NodeId>)
        ensures
            table::rows(r@) == pending_peers(self@),
    {
        let mut out: Vec<NodeId> = Vec::new();
        let mut i: usize = 0;
        let ghost all = table::rows(self.messages@);
        let ghost p = queries::message_pending();
        let ghost f = |m: MessageV| m.peer_nodeid;
        assert(all.take(0).filter(p).map_values(f) =~= Seq::empty()) by {
            reveal(Seq::filter);
        }
        while i < self.messages.len()
            invariant
                i <= self.messages.len(),
                all == table::rows(self.messages@),
                p == queries::message_pending(),
                f == |m: MessageV| m.peer_nodeid,
                table::rows(out@) == distinct(all.take(i as int).filter(p).map_values(f)),
            decreases self.messages.len() - i,
        {
            let row = &self.messages[i];
            proof {
                table::lemma_filter_step(all, p, i as int);
            }
            if row.direction == Direction::Out && row.delivered_at_ms.is_none() {
                let ghost before = all.take(i as int).filter(p).map_values(f);
                let ghost after = all.take(i + 1).filter(p).map_values(f);
                assert(after =~= before.push(row.peer_nodeid@));
                assert(after.drop_last() =~= before);
                if !contains_node(&out, &row.peer_nodeid) {
                    append_node(&mut out, row.peer_nodeid);
                }
            }
            i = i + 1;
        }
        assert(all.take(i as int) =~= all);
        out
    }

    /// At most `limit` undelivered messages for a peer, oldest first.
    pub fn outbox_pending_for_peer(&self, peer: &NodeId, limit: usize) -> (r: Vec<MessageRow>)
        ensures
            table::rows(r@) == table::at_most(pending_for(self@, peer@), limit as int),
    {
        table::select(
            &self.messages,
            &queries::MessagePendingFor { peer: *peer },
            &queries::MessagesByTime,
            limit,
        )
    }

    /// Marks an outbound message as delivered at the given time.
    pub fn outbox_mark_delivered_at(
        &mut self,
        sender: &NodeId,
        channel_id_bytes: &[u8; 16],
        seq: u64,
        now_ms: u64,
    )
        ensures
            final(self)@ == delivered(old(self)@, sender@, channel_id_bytes@, seq, now_ms),
    {
        let cond = queries::OutboundWithKey { sender: *sender, channel_id: *channel_id_bytes, seq };
        table::update(&mut self.messages, &cond, &queries::MessageDelivered { now_ms });
    }

    /// Marks an outbound message as delivered now.
    pub fn outbox_mark_delivered(
        &mut self,
        sender: &NodeId,
        channel_id_bytes: &[u8; 16],
        seq: u64,
    )
        ensures
            exists|now_ms: u64|
                final(self)@ == #[trigger] delivered(
                    old(self)@,
                    sender@,
                    channel_id_bytes@,
                    seq,
                    now_ms,
                ),
    {
        let now_ms: u64 = clock::unix_ms();
        self.outbox_mark_delivered_at(sender, channel_id_bytes, seq, now_ms);
    }

    /// Records an inbound message that arrives at the given time. Returns whether it is new: a
    /// message whose sender, channel and sequence number were seen before is dropped.
    pub fn inbox_record_at(
        &mut self,
        sender: NodeId,
        channel: &str,
        seq: u64,
        payload: &[u8],
        ts_ms: u64,
        now_ms: u64,
    ) -> (r: bool)
        ensures
            r == !already_seen(old(self)@, sender@, channel_key(channel@), seq),
            final(self)@ == recorded(
                old(self)@,
                sender@,
                channel@,
                seq,
                payload@,
                ts_ms,
                now_ms,
            ),
    {
        let cid = channel_id(channel);
        if table::any(&self.messages, &queries::MessageWithKey { sender, channel_id: cid, seq }) {
            return false;
        }
        let row = MessageRow {
            sender,
            channel_id: cid,
            seq,
            direction: Direction::In,
            channel: channel.to_owned(),
            peer_nodeid: sender,
            payload: text::bytes_copy(payload),
            enqueued_at_ms: ts_ms,
            delivered_at_ms: Some(now_ms),
        };
        append_row(&mut self.messages, row);
        true
    }

    /// Records an inbound message that arrives now.
    pub fn inbox_record(
        &mut self,
        sender: NodeId,
        channel: &str,
        seq: u64,
        payload: &[u8],
        ts_ms: u64,
    ) -> (r: bool)
        ensures
            r == !already_seen(old(self)@, sender@, channel_key(channel@), seq),
            exists|now_ms: u64|
                final(self)@ == #[trigger] recorded(
                    old(self)@,
                    sender@,
                    channel@,
                    seq,
                    payload@,
                    ts_ms,
                    now_ms,
                ),
    {
        let now_ms: u64 = clock::unix_ms();
        self.inbox_record_at(sender, channel, seq, payload, ts_ms, now_ms)
    }

    /// At most `limit` inbound messages that pass the filters that are given, oldest first.
    pub fn inbox_backlog(
        &self,
        peer: Option<NodeId>,
        channel: Option<&str>,
        after_enqueued_ms: Option<u64>,
        limit: usize,
    ) -> (r: Vec<MessageRow>)
        ensures
            table::rows(r@) == table::at_most(
                inbox(self@, queries::opt_node(peer), text::opt_str(channel), after_enqueued_ms),
                limit as int,
            ),
    {
        let cond = queries::MessageInbound {
            peer,
            channel: opt_owned(channel),
            after_ms: after_enqueued_ms,
        };
        table::select(&self.messages, &cond, &queries::MessagesByTime, limit)
    }

    // ----- groups -----

    /// Creates a group at the given time. Returns whether it is new.
    pub fn group_create_at(&mut self, name: &str, now_ms: u64) -> (r: bool)
        ensures
            r == !has_group(old(self)@, name@),
            final(self)@ == group_created(old(self)@, name@, now_ms),
    {
        let name = name.to_owned();
        if table::any(&self.groups, &queries::GroupNamed { name: name.clone() }) {
            return false;
        }
        append_row(&mut self.groups, GroupRow { name, created_at_ms: now_ms });
        true
    }

    /// Creates a group now.
    pub fn group_create(&mut self, name: &str) -> (r: bool)
        ensures
            r == !has_group(old(self)@, name@),
            exists|now_ms: u64| final(self)@ == #[trigger] group_created(old(self)@, name@, now_ms),
    {
        let now_ms: u64 = clock::unix_ms();
        self.group_create_at(name, now_ms)
    }

    /// All groups, in the order of their creation.
    pub fn group_list(&self) -> (r: Vec<GroupRow>)
        ensures
            table::rows(r@) == table::stable_order(self@.groups, queries::groups_by_age()),
    {
        proof {
            lemma_filter_always(self@.groups);
        }
        table::select_all(&self.groups, &table::Always, &queries::GroupsByAge)
    }

    /// Whether there is a group of the given name.
    pub fn group_exists(&self, name: &str) -> (r: bool)
        ensures
            r == has_group(self@, name@),
    {
        table::any(&self.groups, &queries::GroupNamed { name: name.to_owned() })
    }

    // ----- agents -----

    /// Registers an agent. Returns whether it is new: an agent whose name in the group, or whose
    /// token, is taken is refused.
    pub fn agent_register(&mut self, row: &AgentRow) -> (r: bool)
        ensures
            r == !agent_refused(old(self)@, row@),
            final(self)@ == agent_registered(old(self)@, row@),
    {
        let cond = queries::AgentInTheWay {
            group: row.group_name.clone(),
            name: row.name.clone(),
            hash: text::bytes_copy(row.token_hash.as_slice()),
        };
        if table::any(&self.agents, &cond) {
            return false;
        }
        append_row(&mut self.agents, row.copy_row());
        true
    }

    /// The agent whose token has the given digest.
    pub fn agent_by_token(&self, token_hash: &[u8]) -> (r: Option<AgentRow>)
        ensures
            table::opt_row(r) == agent_by_hash(self@, token_hash@),
    {
        table::find(&self.agents, &queries::AgentWithToken { hash: text::bytes_copy(token_hash) })
    }

    /// The agent of the given group and name.
    pub fn agent_get(&self, group: &str, name: &str) -> (r: Option<AgentRow>)
        ensures
            table::opt_row(r) == agent_of(self@, group@, name@),
    {
        table::find(
            &self.agents,
            &queries::AgentNamed { group: group.to_owned(), name: name.to_owned() },
        )
    }

    /// The agents of a group, or all of them, in the order of their registration.
    pub fn agent_list(&self, group: Option<&str>) -> (r: Vec<AgentRow>)
        ensures
            table::rows(r@) == agents_of(self@, text::opt_str(group)),
    {
        table::select_all(
            &self.agents,
            &queries::AgentOfGroup { group: opt_owned(group) },
            &queries::AgentsByAge)
    }

    /// Sets an agent's status, and its process where one is given.
    pub fn agent_set_status_at(
        &mut self,
        group: &str,
        name: &str,
        status: &str,
        pid: Option<i64>,
        now_ms: u64,
    )
        ensures
            final(self)@ == status_set(old(self)@, group@, name@, status@, pid, now_ms),
    {
        let cond = queries::AgentNamed { group: group.to_owned(), name: name.to_owned() };
        let change = queries::AgentWithStatus { status: status.to_owned(), pid, now_ms };
        table::update(&mut self.agents, &cond, &change);
    }

    /// Sets an agent's status now.
    pub fn agent_set_status(&mut self, group: &str, name: &str, status: &str, pid: Option<i64>)
        ensures
            exists|now_ms: u64|
                final(self)@ == #[trigger] status_set(
                    old(self)@,
                    group@,
                    name@,
                    status@,
                    pid,
                    now_ms,
                ),
    {
        let now_ms: u64 = clock::unix_ms();
        self.agent_set_status_at(group, name, status, pid, now_ms);
    }

    /// Marks what an earlier daemon left running as ended. Returns the number of agents marked.
    pub fn reconcile_stale_agents(&mut self) -> (n: usize)
        ensures
            final(self)@ == reconciled(old(self)@),
            n == old(self)@.agents.filter(queries::agent_live()).len(),
    {
        let n: usize = table::update(&mut self.agents, &queries::AgentLive, &queries::AgentExited);
        table::update(&mut self.sessions, &queries::SessionActive, &queries::SessionShut);
        n
    }

    /// Notes that an agent was seen at the given time.
    pub fn agent_touch_at(&mut self, group: &str, name: &str, now_ms: u64)
        ensures
            final(self)@ == agent_touched(old(self)@, group@, name@, now_ms),
    {
        let cond = queries::AgentNamed { group: group.to_owned(), name: name.to_owned() };
        table::update(&mut self.agents, &cond, &queries::AgentSeen { now_ms });
    }

    /// Notes that an agent is seen now.
    pub fn agent_touch(&mut self, group: &str, name: &str)
        ensures
            exists|now_ms: u64|
                final(self)@ == #[trigger] agent_touched(old(self)@, group@, name@, now_ms),
    {
        let now_ms: u64 = clock::unix_ms();
        self.agent_touch_at(group, name, now_ms);
    }

    // ----- sessions -----

    /// Creates a session. Returns whether it is new.
    pub fn session_create(&mut self, row: &SessionRow) -> (r: bool)
        ensures
            r == !has_session(old(self)@, row@.group_name, row@.name),
            final(self)@ == session_created(old(self)@, row@),
    {
        let cond = queries::SessionNamed { group: row.group_name.clone(), name: row.name.clone() };
        if table::any(&self.sessions, &cond) {
            return false;
        }
        append_row(&mut self.sessions, row.copy_row());
        true
    }

    /// The session of the given group and name.
    pub fn session_get(&self, group: &str, name: &str) -> (r: Option<SessionRow>)
        ensures
            table::opt_row(r) == session_of(self@, group@, name@),
    {
        table::find(
            &self.sessions,
            &queries::SessionNamed { group: group.to_owned(), name: name.to_owned() },
        )
    }

    /// The sessions of a group, in the order of their creation.
    pub fn session_list(&self, group: &str) -> (r: Vec<SessionRow>)
        ensures
            table::rows(r@) == sessions_of(self@, group@),
    {
        table::select_all(
            &self.sessions,
            &queries::SessionOfGroup { group: group.to_owned() },
            &queries::SessionsByAge)
    }

    /// The sessions of a name in all groups, in the order of their creation.
    pub fn sessions_named(&self, name: &str) -> (r: Vec<SessionRow>)
        ensures
            table::rows(r@) == sessions_called(self@, name@),
    {
        table::select_all(
            &self.sessions,
            &queries::SessionCalled { name: name.to_owned() },
            &queries::SessionsByAge)
    }

    /// Closes a session. Returns how many rows that were.
    pub fn session_close(&mut self, group: &str, name: &str) -> (n: usize)
        ensures
            final(self)@ == session_closed(old(self)@, group@, name@),
            n == old(self)@.sessions.filter(queries::session_named(group@, name@)).len(),
    {
        let cond = queries::SessionNamed { group: group.to_owned(), name: name.to_owned() };
        table::update(&mut self.sessions, &cond, &queries::SessionShut)
    }

    // ----- the agent bus -----

    /// Appends a message to a session. Its sequence number is one more than the session's highest,
    /// and the messages that the retention limit no longer covers are dropped.
    pub fn agent_msg_enqueue_at(
        &mut self,
        group: &str,
        session: &str,
        from_agent: &str,
        to_agent: &str,
        kind: &str,
        payload: Vec<u8>,
        now_ms: u64,
    ) -> (r: Result<AgentMsgRow, StoreError>)
        ensures
            ({
                let full = last_bus_seq(old(self)@, group@, session@) == u64::MAX;
                let m = next_bus(
                    old(self)@,
                    group@,
                    session@,
                    from_agent@,
                    to_agent@,
                    kind@,
                    payload@,
                    now_ms,
                );
                match r {
                    Ok(row) => !full && row@ == m && final(self)@ == bus_appended(old(self)@, m),
                    Err(e) => full && e is SeqExhausted && final(self)@ == old(self)@,
                }
            }),
    {
        let cond = queries::BusOfSession { group: group.to_owned(), session: session.to_owned() };
        let last: u64 = table::top(&self.bus, &cond, &queries::BusSeq);
        if last == u64::MAX {
            return Err(StoreError::SeqExhausted);
        }
        let row = AgentMsgRow {
            group_name: group.to_owned(),
            session_name: session.to_owned(),
            seq: last + 1,
            from_agent: from_agent.to_owned(),
            to_agent: to_agent.to_owned(),
            kind: kind.to_owned(),
            payload,
            enqueued_at_ms: now_ms,
            consumed_at_ms: None,
        };
        append_row(&mut self.bus, row.copy_row());
        let old_ones = queries::BusOutlived {
            group: group.to_owned(),
            session: session.to_owned(),
            newest: last + 1,
            retention: self.retention,
        };
        table::delete(&mut self.bus, &old_ones);
        Ok(row)
    }

    /// Appends a message to a session now.
    pub fn agent_msg_enqueue(
        &mut self,
        group: &str,
        session: &str,
        from_agent: &str,
        to_agent: &str,
        kind: &str,
        payload: Vec<u8>,
    ) -> (r: Result<AgentMsgRow, StoreError>)
        ensures
            exists|now_ms: u64|
                ({
                    let m = #[trigger] next_bus(
                        old(self)@,
                        group@,
                        session@,
                        from_agent@,
                        to_agent@,
                        kind@,
                        payload@,
                        now_ms,
                    );
                    let full = last_bus_seq(old(self)@, group@, session@) == u64::MAX;
                    match r {
                        Ok(row) => !full && row@ == m && final(self)@ == bus_appended(
                            old(self)@,
                            m,
                        ),
                        Err(e) => full && e is SeqExhausted && final(self)@ == old(self)@,
                    }
                }),
    {
        let now_ms: u64 = clock::unix_ms();
        let ghost m = next_bus(
            self@,
            group@,
            session@,
            from_agent@,
            to_agent@,
            kind@,
            payload@,
            now_ms,
        );
        self.agent_msg_enqueue_at(group, session, from_agent, to_agent, kind, payload, now_ms)
    }

    /// At most `limit` messages of an agent's backlog, oldest first.
    pub fn agent_msg_backlog(
        &self,
        group: &str,
        to_agent: &str,
        session: Option<&str>,
        after_ms: Option<u64>,
        limit: usize,
        unconsumed_only: bool,
    ) -> (r: Vec<AgentMsgRow>)
        ensures
            table::rows(r@) == table::at_most(
                backlog(
                    self@,
                    group@,
                    to_agent@,
                    text::opt_str(session),
                    after_ms,
                    unconsumed_only,
                ),
                limit as int,
            ),
    {
        let cond = queries::BusBacklog {
            group: group.to_owned(),
            to_agent: to_agent.to_owned(),
            session: opt_owned(session),
            after_ms,
            unconsumed_only,
        };
        table::select(&self.bus, &cond, &queries::BusByTime, limit)
    }

    /// Marks a message as read at the given time.
    pub fn agent_msg_mark_consumed_at(&mut self, group: &str, session: &str, seq: u64, now_ms: u64)
        ensures
            final(self)@ == consumed(old(self)@, group@, session@, seq, now_ms),
    {
        let cond = queries::BusWithKey {
            group: group.to_owned(),
            session: session.to_owned(),
            seq,
        };
        table::update(&mut self.bus, &cond, &queries::BusConsumed { now_ms });
    }

    /// Marks a message as read now.
    pub fn agent_msg_mark_consumed(&mut self, group: &str, session: &str, seq: u64)
        ensures
            exists|now_ms: u64|
                final(self)@ == #[trigger] consumed(old(self)@, group@, session@, seq, now_ms),
    {
        let now_ms: u64 = clock::unix_ms();
        self.agent_msg_mark_consumed_at(group, session, seq, now_ms);
    }

    /// The unread messages of one kind to an agent, by their sequence numbers.
    pub fn agent_msg_pending(&self, group: &str, to_agent: &str, kind: &str) -> (r: Vec<
        AgentMsgRow,
    >)
        ensures
            table::rows(r@) == pending_kind(self@, group@, to_agent@, kind@),
    {
        let cond = queries::BusPending {
            group: group.to_owned(),
            to_agent: to_agent.to_owned(),
            kind: kind.to_owned(),
        };
        table::select_all(&self.bus, &cond, &queries::BusBySeq)
    }

    /// The transcript of a session, both directions, behind a sequence number.
    pub fn agent_msg_session_log(&self, group: &str, session: &str, after_seq: u64) -> (r: Vec<
        AgentMsgRow,
    >)
        ensures
            table::rows(r@) == session_log(self@, group@, session@, after_seq),
    {
        let cond = queries::BusLog {
            group: group.to_owned(),
            session: session.to_owned(),
            after_seq,
        };
        table::select_all(&self.bus, &cond, &queries::BusBySeq)
    }

    /// Everything said in a group after a point in time, all sessions interleaved.
    pub fn agent_msg_group_feed(&self, group: &str, after_ms: u64) -> (r: Vec<AgentMsgRow>)
        ensures
            table::rows(r@) == group_feed(self@, group@, after_ms),
    {
        let cond = queries::BusFeed { group: group.to_owned(), after_ms };
        table::select_all(&self.bus, &cond, &queries::BusInterleaved)
    }
}

/// A copy of a selector.
pub fn selector_copy(sel: &PeerSelectorBytes) -> (r: PeerSelectorBytes)
    ensures
        r@ == sel@,
{
    match sel {
        PeerSelectorBytes::Name(n) => PeerSelectorBytes::Name(n.clone()),
        PeerSelectorBytes::NodeId(n) => PeerSelectorBytes::NodeId(*n),
    }
}

/// An owned copy of an optional string.
pub fn opt_owned(s: Option<&str>) -> (r: Option<String>)
    ensures
        text::opt_text(r) == text::opt_str(s),
{
    match s {
        Some(t) => Some(t.to_owned()),
        None => None,
    }
}

/// Whether `v` holds `n`.
fn contains_node(v: &Vec<NodeId>, n: &NodeId) -> (r: bool)
    ensures
        r == table::rows(v@).contains(n@),
{
    let mut i: usize = 0;
    while i < v.len()
        invariant
            i <= v.len(),
            forall|j: int| 0 <= j < i ==> #[trigger] table::rows(v@)[j] != n@,
        decreases v.len() - i,
    {
        if v[i].same(n) {
            assert(table::rows(v@)[i as int] == n@);
            return true;
        }
        i = i + 1;
    }
    false
}

fn append_node(v: &mut Vec<NodeId>, n: NodeId)
    ensures
        table::rows(final(v)@) == table::rows(old(v)@).push(n@),
{
    v.push(n);
    assert(table::rows(v@) =~= table::rows(old(v)@).push(n@));
}

proof fn lemma_filter_always<A>(s: Seq<A>)
    ensures
        s.filter(table::always()) == s,
    decreases s.len(),
{
    reveal(Seq::filter);
    if s.len() > 0 {
        lemma_filter_always(s.drop_last());
        assert(s.drop_last().push(s.last()) =~= s);
    }
}

} // verus!
