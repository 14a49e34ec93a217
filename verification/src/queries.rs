//! The conditions, orders and changes that the store's queries are made of.

use vstd::prelude::*;

use crate::ipc::SelectorV;
use crate::node::NodeId;
use crate::rows::AgentMsgRow;
use crate::rows::AgentRow;
use crate::rows::AgentV;
use crate::rows::BusV;
use crate::rows::Direction;
use crate::rows::GroupRow;
use crate::rows::GroupV;
use crate::rows::MessageRow;
use crate::rows::MessageV;
use crate::rows::MetaRow;
use crate::rows::MetaV;
use crate::rows::PeerRow;
use crate::rows::PeerSelectorBytes;
use crate::rows::PeerV;
use crate::rows::SessionRow;
use crate::rows::SessionV;
use crate::rows::TokenRow;
use crate::rows::TokenV;
use crate::table::Change;
use crate::table::Condition;
use crate::table::Numbering;
use crate::table::RowOrder;
use crate::text;
use crate::token;
use crate::token::Cap;

verus! {

// ----- settings -----

/// The setting of the given key.
pub open spec fn meta_named(key: Seq<char>) -> spec_fn(MetaV) -> bool {
    |m: MetaV| m.key == key
}

pub struct MetaNamed {
    pub key: String,
}

impl Condition<MetaRow> for MetaNamed {
    open spec fn pred(&self) -> spec_fn(MetaV) -> bool {
        meta_named(self.key@)
    }

    fn test(&self, row: &MetaRow) -> (b: bool) {
        row.key == self.key
    }
}

// ----- peers -----

/// The peer that a selector selects.
pub open spec fn peer_selected(sel: SelectorV) -> spec_fn(PeerV) -> bool {
    |p: PeerV|
        match sel {
            SelectorV::Name(n) => p.name == n,
            SelectorV::NodeId(n) => p.nodeid == n,
        }
}

/// Another peer that has the given name.
pub open spec fn peer_name_taken(nodeid: Seq<u8>, name: Seq<char>) -> spec_fn(PeerV) -> bool {
    |p: PeerV| p.name == name && p.nodeid != nodeid
}

/// Peers in the order of their names.
pub open spec fn peers_by_name() -> spec_fn(PeerV, PeerV) -> bool {
    |a: PeerV, b: PeerV| text::text_le(a.name, b.name)
}

/// A peer under a new name, with a new address where there is one.
pub open spec fn peer_renamed(name: Seq<char>, addr_blob: Option<Seq<u8>>) -> spec_fn(PeerV) -> PeerV {
    |p: PeerV|
        PeerV {
            name,
            addr_blob: if addr_blob is Some {
                addr_blob
            } else {
                p.addr_blob
            },
            ..p
        }
}

/// A peer seen at the given time.
pub open spec fn peer_seen(now_ms: u64) -> spec_fn(PeerV) -> PeerV {
    |p: PeerV| PeerV { last_seen_ms: Some(now_ms), ..p }
}

pub struct PeerSelected {
    pub sel: PeerSelectorBytes,
}

impl Condition<PeerRow> for PeerSelected {
    open spec fn pred(&self) -> spec_fn(PeerV) -> bool {
        peer_selected(self.sel@)
    }

    fn test(&self, row: &PeerRow) -> (b: bool) {
        match &self.sel {
            PeerSelectorBytes::Name(n) => row.name == *n,
            PeerSelectorBytes::NodeId(n) => row.nodeid.same(n),
        }
    }
}

pub struct PeerNameTaken {
    pub nodeid: NodeId,
    pub name: String,
}

impl Condition<PeerRow> for PeerNameTaken {
    open spec fn pred(&self) -> spec_fn(PeerV) -> bool {
        peer_name_taken(self.nodeid@, self.name@)
    }

    fn test(&self, row: &PeerRow) -> (b: bool) {
        row.name == self.name && !row.nodeid.same(&self.nodeid)
    }
}

pub struct PeersByName;

impl RowOrder<PeerRow> for PeersByName {
    open spec fn le(&self) -> spec_fn(PeerV, PeerV) -> bool {
        peers_by_name()
    }

    fn may_precede(&self, a: &PeerRow, b: &PeerRow) -> (r: bool) {
        text::str_le(a.name.as_str(), b.name.as_str())
    }
}

pub struct PeerRenamed {
    pub name: String,
    pub addr_blob: Option<Vec<u8>>,
}

impl Change<PeerRow> for PeerRenamed {
    open spec fn result(&self) -> spec_fn(PeerV) -> PeerV {
        peer_renamed(self.name@, text::opt_bytes(self.addr_blob))
    }

    fn apply(&self, row: &mut PeerRow) {
        row.name = self.name.clone();
        if self.addr_blob.is_some() {
            row.addr_blob = text::opt_bytes_copy(&self.addr_blob);
        }
    }
}

pub struct PeerSeen {
    pub now_ms: u64,
}

impl Change<PeerRow> for PeerSeen {
    open spec fn result(&self) -> spec_fn(PeerV) -> PeerV {
        peer_seen(self.now_ms)
    }

    fn apply(&self, row: &mut PeerRow) {
        row.last_seen_ms = Some(self.now_ms);
    }
}

// ----- tokens -----

/// The token of the given identifier.
pub open spec fn token_with_id(id: Seq<u8>) -> spec_fn(TokenV) -> bool {
    |t: TokenV| t.id == id
}

/// A token from `iss` to `sub` that carries `cap`, is not revoked and expires after `now_secs`.
pub open spec fn token_usable(iss: Seq<u8>, sub: Seq<u8>, cap: Cap, now_secs: u64) -> spec_fn(
    TokenV,
) -> bool {
    |t: TokenV|
        t.iss == iss && t.sub == sub && !t.revoked && t.exp > now_secs && t.caps.contains(cap)
}

/// Tokens by their expiry, the latest first.
pub open spec fn tokens_by_expiry() -> spec_fn(TokenV, TokenV) -> bool {
    |a: TokenV, b: TokenV| a.exp >= b.exp
}

/// A token with new bytes and a new state of revocation.
pub open spec fn token_replaced(raw: Seq<u8>, revoked: bool) -> spec_fn(TokenV) -> TokenV {
    |t: TokenV| TokenV { raw, revoked, ..t }
}

/// A token, revoked.
pub open spec fn token_revoked() -> spec_fn(TokenV) -> TokenV {
    |t: TokenV| TokenV { revoked: true, ..t }
}

pub struct TokenWithId {
    pub id: [u8; 16],
}

impl Condition<TokenRow> for TokenWithId {
    open spec fn pred(&self) -> spec_fn(TokenV) -> bool {
        token_with_id(self.id@)
    }

    fn test(&self, row: &TokenRow) -> (b: bool) {
        text::bytes_eq(row.id.as_slice(), self.id.as_slice())
    }
}

pub struct TokenUsable {
    pub iss: NodeId,
    pub sub: NodeId,
    pub cap: Cap,
    pub now_secs: u64,
}

impl Condition<TokenRow> for TokenUsable {
    open spec fn pred(&self) -> spec_fn(TokenV) -> bool {
        token_usable(self.iss@, self.sub@, self.cap, self.now_secs)
    }

    fn test(&self, row: &TokenRow) -> (b: bool) {
        row.iss.same(&self.iss) && row.sub.same(&self.sub) && !row.revoked && row.exp
            > self.now_secs && token::has_cap(&row.caps, self.cap)
    }
}

pub struct TokensByExpiry;

impl RowOrder<TokenRow> for TokensByExpiry {
    open spec fn le(&self) -> spec_fn(TokenV, TokenV) -> bool {
        tokens_by_expiry()
    }

    fn may_precede(&self, a: &TokenRow, b: &TokenRow) -> (r: bool) {
        a.exp >= b.exp
    }
}

pub struct TokenReplaced {
    pub raw: Vec<u8>,
    pub revoked: bool,
}

impl Change<TokenRow> for TokenReplaced {
    open spec fn result(&self) -> spec_fn(TokenV) -> TokenV {
        token_replaced(self.raw@, self.revoked)
    }

    fn apply(&self, row: &mut TokenRow) {
        row.raw = text::bytes_copy(self.raw.as_slice());
        row.revoked = self.revoked;
    }
}

pub struct TokenRevoked;

impl Change<TokenRow> for TokenRevoked {
    open spec fn result(&self) -> spec_fn(TokenV) -> TokenV {
        token_revoked()
    }

    fn apply(&self, row: &mut TokenRow) {
        row.revoked = true;
    }
}

// ----- messages between peers -----

/// The message with the given key.
pub open spec fn message_with_key(sender: Seq<u8>, channel_id: Seq<u8>, seq: u64) -> spec_fn(
    MessageV,
) -> bool {
    |m: MessageV| m.sender == sender && m.channel_id == channel_id && m.seq == seq
}

/// The outbound message with the given key.
pub open spec fn outbound_with_key(sender: Seq<u8>, channel_id: Seq<u8>, seq: u64) -> spec_fn(
    MessageV,
) -> bool {
    |m: MessageV|
        m.sender == sender && m.channel_id == channel_id && m.seq == seq && m.direction is Out
}

/// A message of the given sender on the given channel.
pub open spec fn message_on_channel(sender: Seq<u8>, channel_id: Seq<u8>) -> spec_fn(
    MessageV,
) -> bool {
    |m: MessageV| m.sender == sender && m.channel_id == channel_id
}

/// A message's sequence number.
pub open spec fn message_seq() -> spec_fn(MessageV) -> u64 {
    |m: MessageV| m.seq
}

/// An outbound message that is not delivered.
pub open spec fn message_pending() -> spec_fn(MessageV) -> bool {
    |m: MessageV| m.direction is Out && m.delivered_at_ms is None
}

/// An outbound message to `peer` that is not delivered.
pub open spec fn message_pending_for(peer: Seq<u8>) -> spec_fn(MessageV) -> bool {
    |m: MessageV| m.direction is Out && m.delivered_at_ms is None && m.peer_nodeid == peer
}

/// An inbound message that passes the filters that are given.
pub open spec fn message_inbound(
    peer: Option<Seq<u8>>,
    channel: Option<Seq<char>>,
    after_ms: Option<u64>,
) -> spec_fn(MessageV) -> bool {
    |m: MessageV|
        {
            &&& m.direction is In
            &&& peer matches Some(p) ==> m.peer_nodeid == p
            &&& channel matches Some(c) ==> m.channel == c
            &&& after_ms matches Some(t) ==> m.enqueued_at_ms > t
        }
}

/// Messages by the time at which they were enqueued.
pub open spec fn messages_by_time() -> spec_fn(MessageV, MessageV) -> bool {
    |a: MessageV, b: MessageV| a.enqueued_at_ms <= b.enqueued_at_ms
}

/// A message delivered at the given time.
pub open spec fn message_delivered(now_ms: u64) -> spec_fn(MessageV) -> MessageV {
    |m: MessageV| MessageV { delivered_at_ms: Some(now_ms), ..m }
}

pub struct MessageWithKey {
    pub sender: NodeId,
    pub channel_id: [u8; 16],
    pub seq: u64,
}

impl Condition<MessageRow> for MessageWithKey {
    open spec fn pred(&self) -> spec_fn(MessageV) -> bool {
        message_with_key(self.sender@, self.channel_id@, self.seq)
    }

    fn test(&self, row: &MessageRow) -> (b: bool) {
        row.sender.same(&self.sender) && text::bytes_eq(
            row.channel_id.as_slice(),
            self.channel_id.as_slice(),
        ) && row.seq == self.seq
    }
}

pub struct OutboundWithKey {
    pub sender: NodeId,
    pub channel_id: [u8; 16],
    pub seq: u64,
}

impl Condition<MessageRow> for OutboundWithKey {
    open spec fn pred(&self) -> spec_fn(MessageV) -> bool {
        outbound_with_key(self.sender@, self.channel_id@, self.seq)
    }

    fn test(&self, row: &MessageRow) -> (b: bool) {
        row.sender.same(&self.sender) && text::bytes_eq(
            row.channel_id.as_slice(),
            self.channel_id.as_slice(),
        ) && row.seq == self.seq && row.direction == Direction::Out
    }
}

pub struct MessageOnChannel {
    pub sender: NodeId,
    pub channel_id: [u8; 16],
}

impl Condition<MessageRow> for MessageOnChannel {
    open spec fn pred(&self) -> spec_fn(MessageV) -> bool {
        message_on_channel(self.sender@, self.channel_id@)
    }

    fn test(&self, row: &MessageRow) -> (b: bool) {
        row.sender.same(&self.sender) && text::bytes_eq(
            row.channel_id.as_slice(),
            self.channel_id.as_slice(),
        )
    }
}

pub struct MessageSeq;

impl Numbering<MessageRow> for MessageSeq {
    open spec fn number(&self) -> spec_fn(MessageV) -> u64 {
        message_seq()
    }

    fn number_of(&self, row: &MessageRow) -> (n: u64) {
        row.seq
    }
}

pub struct MessagePending;

impl Condition<MessageRow> for MessagePending {
    open spec fn pred(&self) -> spec_fn(MessageV) -> bool {
        message_pending()
    }

    fn test(&self, row: &MessageRow) -> (b: bool) {
        row.direction == Direction::Out && row.delivered_at_ms.is_none()
    }
}

pub struct MessagePendingFor {
    pub peer: NodeId,
}

impl Condition<MessageRow> for MessagePendingFor {
    open spec fn pred(&self) -> spec_fn(MessageV) -> bool {
        message_pending_for(self.peer@)
    }

    fn test(&self, row: &MessageRow) -> (b: bool) {
        row.direction == Direction::Out && row.delivered_at_ms.is_none() && row.peer_nodeid.same(
            &self.peer,
        )
    }
}

pub struct MessageInbound {
    pub peer: Option<NodeId>,
    pub channel: Option<String>,
    pub after_ms: Option<u64>,
}

/// The view of an optional identifier.
pub open spec fn opt_node(n: Option<NodeId>) -> Option<Seq<u8>> {
    match n {
        Some(id) => Some(id@),
        None => None,
    }
}

impl Condition<MessageRow> for MessageInbound {
    open spec fn pred(&self) -> spec_fn(MessageV) -> bool {
        message_inbound(opt_node(self.peer), text::opt_text(self.channel), self.after_ms)
    }

    fn test(&self, row: &MessageRow) -> (b: bool) {
        let of_peer = match &self.peer {
            Some(p) => row.peer_nodeid.same(p),
            None => true,
        };
        let on_channel = match &self.channel {
            Some(c) => row.channel == *c,
            None => true,
        };
        let late_enough = match self.after_ms {
            Some(t) => row.enqueued_at_ms > t,
            None => true,
        };
        row.direction == Direction::In && of_peer && on_channel && late_enough
    }
}

pub struct MessagesByTime;

impl RowOrder<MessageRow> for MessagesByTime {
    open spec fn le(&self) -> spec_fn(MessageV, MessageV) -> bool {
        messages_by_time()
    }

    fn may_precede(&self, a: &MessageRow, b: &MessageRow) -> (r: bool) {
        a.enqueued_at_ms <= b.enqueued_at_ms
    }
}

pub struct MessageDelivered {
    pub now_ms: u64,
}

impl Change<MessageRow> for MessageDelivered {
    open spec fn result(&self) -> spec_fn(MessageV) -> MessageV {
        message_delivered(self.now_ms)
    }

    fn apply(&self, row: &mut MessageRow) {
        row.delivered_at_ms = Some(self.now_ms);
    }
}

// ----- groups -----

/// The group of the given name.
pub open spec fn group_named(name: Seq<char>) -> spec_fn(GroupV) -> bool {
    |g: GroupV| g.name == name
}

/// Groups by the time at which they were created.
pub open spec fn groups_by_age() -> spec_fn(GroupV, GroupV) -> bool {
    |a: GroupV, b: GroupV| a.created_at_ms <= b.created_at_ms
}

pub struct GroupNamed {
    pub name: String,
}

impl Condition<GroupRow> for GroupNamed {
    open spec fn pred(&self) -> spec_fn(GroupV) -> bool {
        group_named(self.name@)
    }

    fn test(&self, row: &GroupRow) -> (b: bool) {
        row.name == self.name
    }
}

pub struct GroupsByAge;

impl RowOrder<GroupRow> for GroupsByAge {
    open spec fn le(&self) -> spec_fn(GroupV, GroupV) -> bool {
        groups_by_age()
    }

    fn may_precede(&self, a: &GroupRow, b: &GroupRow) -> (r: bool) {
        a.created_at_ms <= b.created_at_ms
    }
}

// ----- agents -----

/// The agent of the given group and name.
pub open spec fn agent_named(group: Seq<char>, name: Seq<char>) -> spec_fn(AgentV) -> bool {
    |a: AgentV| a.group_name == group && a.name == name
}

/// The agent whose token has the given digest.
pub open spec fn agent_with_token(hash: Seq<u8>) -> spec_fn(AgentV) -> bool {
    |a: AgentV| a.token_hash == hash
}

/// An agent whose name in its group, or whose token, is that of the new one.
pub open spec fn agent_in_the_way(group: Seq<char>, name: Seq<char>, hash: Seq<u8>) -> spec_fn(
    AgentV,
) -> bool {
    |a: AgentV| (a.group_name == group && a.name == name) || a.token_hash == hash
}

/// An agent of the given group, or any agent.
pub open spec fn agent_of_group(group: Option<Seq<char>>) -> spec_fn(AgentV) -> bool {
    |a: AgentV| group matches Some(g) ==> a.group_name == g
}

/// An agent whose status says that its process runs.
pub open spec fn agent_live() -> spec_fn(AgentV) -> bool {
    |a: AgentV|
        a.status == "starting"@ || a.status == "running"@ || a.status == "awaiting_input"@
}

/// Agents by the time at which they were registered.
pub open spec fn agents_by_age() -> spec_fn(AgentV, AgentV) -> bool {
    |a: AgentV, b: AgentV| a.created_at_ms <= b.created_at_ms
}

/// An agent with a new status, with a new process where there is one, seen at the given time.
pub open spec fn agent_with_status(status: Seq<char>, pid: Option<i64>, now_ms: u64) -> spec_fn(
    AgentV,
) -> AgentV {
    |a: AgentV|
        AgentV {
            status,
            pid: if pid is Some {
                pid
            } else {
                a.pid
            },
            last_seen_ms: Some(now_ms),
            ..a
        }
}

/// An agent that has exited.
pub open spec fn agent_exited() -> spec_fn(AgentV) -> AgentV {
    |a: AgentV| AgentV { status: "exited"@, ..a }
}

/// An agent seen at the given time.
pub open spec fn agent_seen(now_ms: u64) -> spec_fn(AgentV) -> AgentV {
    |a: AgentV| AgentV { last_seen_ms: Some(now_ms), ..a }
}

pub struct AgentNamed {
    pub group: String,
    pub name: String,
}

impl Condition<AgentRow> for AgentNamed {
    open spec fn pred(&self) -> spec_fn(AgentV) -> bool {
        agent_named(self.group@, self.name@)
    }

    fn test(&self, row: &AgentRow) -> (b: bool) {
        row.group_name == self.group && row.name == self.name
    }
}

pub struct AgentWithToken {
    pub hash: Vec<u8>,
}

impl Condition<AgentRow> for AgentWithToken {
    open spec fn pred(&self) -> spec_fn(AgentV) -> bool {
        agent_with_token(self.hash@)
    }

    fn test(&self, row: &AgentRow) -> (b: bool) {
        text::bytes_eq(row.token_hash.as_slice(), self.hash.as_slice())
    }
}

pub struct AgentInTheWay {
    pub group: String,
    pub name: String,
    pub hash: Vec<u8>,
}

impl Condition<AgentRow> for AgentInTheWay {
    open spec fn pred(&self) -> spec_fn(AgentV) -> bool {
        agent_in_the_way(self.group@, self.name@, self.hash@)
    }

    fn test(&self, row: &AgentRow) -> (b: bool) {
        (row.group_name == self.group && row.name == self.name) || text::bytes_eq(
            row.token_hash.as_slice(),
            self.hash.as_slice(),
        )
    }
}

pub struct AgentOfGroup {
    pub group: Option<String>,
}

impl Condition<AgentRow> for AgentOfGroup {
    open spec fn pred(&self) -> spec_fn(AgentV) -> bool {
        agent_of_group(text::opt_text(self.group))
    }

    fn test(&self, row: &AgentRow) -> (b: bool) {
        match &self.group {
            Some(g) => row.group_name == *g,
            None => true,
        }
    }
}

pub struct AgentLive;

impl Condition<AgentRow> for AgentLive {
    open spec fn pred(&self) -> spec_fn(AgentV) -> bool {
        agent_live()
    }

    fn test(&self, row: &AgentRow) -> (b: bool) {
        text::str_eq(row.status.as_str(), "starting") || text::str_eq(
            row.status.as_str(),
            "running",
        ) || text::str_eq(row.status.as_str(), "awaiting_input")
    }
}

pub struct AgentsByAge;

impl RowOrder<AgentRow> for AgentsByAge {
    open spec fn le(&self) -> spec_fn(AgentV, AgentV) -> bool {
        agents_by_age()
    }

    fn may_precede(&self, a: &AgentRow, b: &AgentRow) -> (r: bool) {
        a.created_at_ms <= b.created_at_ms
    }
}

pub struct AgentWithStatus {
    pub status: String,
    pub pid: Option<i64>,
    pub now_ms: u64,
}

impl Change<AgentRow> for AgentWithStatus {
    open spec fn result(&self) -> spec_fn(AgentV) -> AgentV {
        agent_with_status(self.status@, self.pid, self.now_ms)
    }

    fn apply(&self, row: &mut AgentRow) {
        row.status = self.status.clone();
        if self.pid.is_some() {
            row.pid = self.pid;
        }
        row.last_seen_ms = Some(self.now_ms);
    }
}

pub struct AgentExited;

impl Change<AgentRow> for AgentExited {
    open spec fn result(&self) -> spec_fn(AgentV) -> AgentV {
        agent_exited()
    }

    fn apply(&self, row: &mut AgentRow) {
        row.status = "exited".to_owned();
    }
}

pub struct AgentSeen {
    pub now_ms: u64,
}

impl Change<AgentRow> for AgentSeen {
    open spec fn result(&self) -> spec_fn(AgentV) -> AgentV {
        agent_seen(self.now_ms)
    }

    fn apply(&self, row: &mut AgentRow) {
        row.last_seen_ms = Some(self.now_ms);
    }
}

// ----- sessions -----

/// The session of the given group and name.
pub open spec fn session_named(group: Seq<char>, name: Seq<char>) -> spec_fn(SessionV) -> bool {
    |s: SessionV| s.group_name == group && s.name == name
}

/// A session of the given group.
pub open spec fn session_of_group(group: Seq<char>) -> spec_fn(SessionV) -> bool {
    |s: SessionV| s.group_name == group
}

/// A session of the given name, in whatever group.
pub open spec fn session_called(name: Seq<char>) -> spec_fn(SessionV) -> bool {
    |s: SessionV| s.name == name
}

/// A session that is active.
pub open spec fn session_active() -> spec_fn(SessionV) -> bool {
    |s: SessionV| s.status == "active"@
}

/// Sessions by the time at which they were created.
pub open spec fn sessions_by_age() -> spec_fn(SessionV, SessionV) -> bool {
    |a: SessionV, b: SessionV| a.created_at_ms <= b.created_at_ms
}

/// A session, closed.
pub open spec fn session_shut() -> spec_fn(SessionV) -> SessionV {
    |s: SessionV| SessionV { status: "closed"@, ..s }
}

pub struct SessionNamed {
    pub group: String,
    pub name: String,
}

impl Condition<SessionRow> for SessionNamed {
    open spec fn pred(&self) -> spec_fn(SessionV) -> bool {
        session_named(self.group@, self.name@)
    }

    fn test(&self, row: &SessionRow) -> (b: bool) {
        row.group_name == self.group && row.name == self.name
    }
}

pub struct SessionOfGroup {
    pub group: String,
}

impl Condition<SessionRow> for SessionOfGroup {
    open spec fn pred(&self) -> spec_fn(SessionV) -> bool {
        session_of_group(self.group@)
    }

    fn test(&self, row: &SessionRow) -> (b: bool) {
        row.group_name == self.group
    }
}

pub struct SessionCalled {
    pub name: String,
}

impl Condition<SessionRow> for SessionCalled {
    open spec fn pred(&self) -> spec_fn(SessionV) -> bool {
        session_called(self.name@)
    }

    fn test(&self, row: &SessionRow) -> (b: bool) {
        row.name == self.name
    }
}

pub struct SessionActive;

impl Condition<SessionRow> for SessionActive {
    open spec fn pred(&self) -> spec_fn(SessionV) -> bool {
        session_active()
    }

    fn test(&self, row: &SessionRow) -> (b: bool) {
        text::str_eq(row.status.as_str(), "active")
    }
}

pub struct SessionsByAge;

impl RowOrder<SessionRow> for SessionsByAge {
    open spec fn le(&self) -> spec_fn(SessionV, SessionV) -> bool {
        sessions_by_age()
    }

    fn may_precede(&self, a: &SessionRow, b: &SessionRow) -> (r: bool) {
        a.created_at_ms <= b.created_at_ms
    }
}

pub struct SessionShut;

impl Change<SessionRow> for SessionShut {
    open spec fn result(&self) -> spec_fn(SessionV) -> SessionV {
        session_shut()
    }

    fn apply(&self, row: &mut SessionRow) {
        row.status = "closed".to_owned();
    }
}

// ----- the agent bus -----

/// A message of the given session.
pub open spec fn bus_of_session(group: Seq<char>, session: Seq<char>) -> spec_fn(BusV) -> bool {
    |m: BusV| m.group_name == group && m.session_name == session
}

/// The message with the given key.
pub open spec fn bus_with_key(group: Seq<char>, session: Seq<char>, seq: u64) -> spec_fn(
    BusV,
) -> bool {
    |m: BusV| m.group_name == group && m.session_name == session && m.seq == seq
}

/// A message of the given session that the retention limit no longer covers when `newest` is the
/// last one.
pub open spec fn bus_outlived(
    group: Seq<char>,
    session: Seq<char>,
    newest: u64,
    retention: u64,
) -> spec_fn(BusV) -> bool {
    |m: BusV|
        m.group_name == group && m.session_name == session && m.seq as int <= newest as int
            - retention as int
}

/// A message's sequence number.
pub open spec fn bus_seq() -> spec_fn(BusV) -> u64 {
    |m: BusV| m.seq
}

/// A message to `to_agent` in `group` that passes the filters that are given.
pub open spec fn bus_backlog(
    group: Seq<char>,
    to_agent: Seq<char>,
    session: Option<Seq<char>>,
    after_ms: Option<u64>,
    unconsumed_only: bool,
) -> spec_fn(BusV) -> bool {
    |m: BusV|
        {
            &&& m.group_name == group
            &&& m.to_agent == to_agent
            &&& session matches Some(s) ==> m.session_name == s
            &&& after_ms matches Some(t) ==> m.enqueued_at_ms > t
            &&& unconsumed_only ==> m.consumed_at_ms is None
        }
}

/// An unread message of the given kind to `to_agent` in `group`.
pub open spec fn bus_pending(group: Seq<char>, to_agent: Seq<char>, kind: Seq<char>) -> spec_fn(
    BusV,
) -> bool {
    |m: BusV|
        m.group_name == group && m.to_agent == to_agent && m.kind == kind && m.consumed_at_ms is None
}

/// A message of the given session behind the given sequence number.
pub open spec fn bus_log(group: Seq<char>, session: Seq<char>, after_seq: u64) -> spec_fn(
    BusV,
) -> bool {
    |m: BusV| m.group_name == group && m.session_name == session && m.seq > after_seq
}

/// A message of the given group enqueued after the given time.
pub open spec fn bus_feed(group: Seq<char>, after_ms: u64) -> spec_fn(BusV) -> bool {
    |m: BusV| m.group_name == group && m.enqueued_at_ms > after_ms
}

/// Messages by their sequence numbers.
pub open spec fn bus_by_seq() -> spec_fn(BusV, BusV) -> bool {
    |a: BusV, b: BusV| a.seq <= b.seq
}

/// Messages by time, then by their sequence numbers.
pub open spec fn bus_by_time() -> spec_fn(BusV, BusV) -> bool {
    |a: BusV, b: BusV|
        a.enqueued_at_ms < b.enqueued_at_ms || (a.enqueued_at_ms == b.enqueued_at_ms && a.seq
            <= b.seq)
}

/// Messages by time, then by session, then by their sequence numbers.
pub open spec fn bus_interleaved() -> spec_fn(BusV, BusV) -> bool {
    |a: BusV, b: BusV|
        a.enqueued_at_ms < b.enqueued_at_ms || (a.enqueued_at_ms == b.enqueued_at_ms && (
        if a.session_name == b.session_name {
            a.seq <= b.seq
        } else {
            text::text_le(a.session_name, b.session_name)
        }))
}

/// A message read at the given time.
pub open spec fn bus_consumed(now_ms: u64) -> spec_fn(BusV) -> BusV {
    |m: BusV| BusV { consumed_at_ms: Some(now_ms), ..m }
}

pub struct BusOfSession {
    pub group: String,
    pub session: String,
}

impl Condition<AgentMsgRow> for BusOfSession {
    open spec fn pred(&self) -> spec_fn(BusV) -> bool {
        bus_of_session(self.group@, self.session@)
    }

    fn test(&self, row: &AgentMsgRow) -> (b: bool) {
        row.group_name == self.group && row.session_name == self.session
    }
}

pub struct BusWithKey {
    pub group: String,
    pub session: String,
    pub seq: u64,
}

impl Condition<AgentMsgRow> for BusWithKey {
    open spec fn pred(&self) -> spec_fn(BusV) -> bool {
        bus_with_key(self.group@, self.session@, self.seq)
    }

    fn test(&self, row: &AgentMsgRow) -> (b: bool) {
        row.seq == self.seq && row.group_name == self.group && row.session_name == self.session
    }
}

pub struct BusOutlived {
    pub group: String,
    pub session: String,
    pub newest: u64,
    pub retention: u64,
}

impl Condition<AgentMsgRow> for BusOutlived {
    open spec fn pred(&self) -> spec_fn(BusV) -> bool {
        bus_outlived(self.group@, self.session@, self.newest, self.retention)
    }

    fn test(&self, row: &AgentMsgRow) -> (b: bool) {
        self.newest >= self.retention && row.seq <= self.newest - self.retention && row.group_name
            == self.group && row.session_name == self.session
    }
}

pub struct BusSeq;

impl Numbering<AgentMsgRow> for BusSeq {
    open spec fn number(&self) -> spec_fn(BusV) -> u64 {
        bus_seq()
    }

    fn number_of(&self, row: &AgentMsgRow) -> (n: u64) {
        row.seq
    }
}

pub struct BusBacklog {
    pub group: String,
    pub to_agent: String,
    pub session: Option<String>,
    pub after_ms: Option<u64>,
    pub unconsumed_only: bool,
}

impl Condition<AgentMsgRow> for BusBacklog {
    open spec fn pred(&self) -> spec_fn(BusV) -> bool {
        bus_backlog(
            self.group@,
            self.to_agent@,
            text::opt_text(self.session),
            self.after_ms,
            self.unconsumed_only,
        )
    }

    fn test(&self, row: &AgentMsgRow) -> (b: bool) {
        let in_session = match &self.session {
            Some(s) => row.session_name == *s,
            None => true,
        };
        let late_enough = match self.after_ms {
            Some(t) => row.enqueued_at_ms > t,
            None => true,
        };
        row.group_name == self.group && row.to_agent == self.to_agent && in_session && late_enough
            && (!self.unconsumed_only || row.consumed_at_ms.is_none())
    }
}

pub struct BusPending {
    pub group: String,
    pub to_agent: String,
    pub kind: String,
}

impl Condition<AgentMsgRow> for BusPending {
    open spec fn pred(&self) -> spec_fn(BusV) -> bool {
        bus_pending(self.group@, self.to_agent@, self.kind@)
    }

    fn test(&self, row: &AgentMsgRow) -> (b: bool) {
        row.group_name == self.group && row.to_agent == self.to_agent && row.kind == self.kind
            && row.consumed_at_ms.is_none()
    }
}

pub struct BusLog {
    pub group: String,
    pub session: String,
    pub after_seq: u64,
}

impl Condition<AgentMsgRow> for BusLog {
    open spec fn pred(&self) -> spec_fn(BusV) -> bool {
        bus_log(self.group@, self.session@, self.after_seq)
    }

    fn test(&self, row: &AgentMsgRow) -> (b: bool) {
        row.group_name == self.group && row.session_name == self.session && row.seq
            > self.after_seq
    }
}

pub struct BusFeed {
    pub group: String,
    pub after_ms: u64,
}

impl Condition<AgentMsgRow> for BusFeed {
    open spec fn pred(&self) -> spec_fn(BusV) -> bool {
        bus_feed(self.group@, self.after_ms)
    }

    fn test(&self, row: &AgentMsgRow) -> (b: bool) {
        row.group_name == self.group && row.enqueued_at_ms > self.after_ms
    }
}

pub struct BusBySeq;

impl RowOrder<AgentMsgRow> for BusBySeq {
    open spec fn le(&self) -> spec_fn(BusV, BusV) -> bool {
        bus_by_seq()
    }

    fn may_precede(&self, a: &AgentMsgRow, b: &AgentMsgRow) -> (r: bool) {
        a.seq <= b.seq
    }
}

pub struct BusByTime;

impl RowOrder<AgentMsgRow> for BusByTime {
    open spec fn le(&self) -> spec_fn(BusV, BusV) -> bool {
        bus_by_time()
    }

    fn may_precede(&self, a: &AgentMsgRow, b: &AgentMsgRow) -> (r: bool) {
        a.enqueued_at_ms < b.enqueued_at_ms || (a.enqueued_at_ms == b.enqueued_at_ms && a.seq
            <= b.seq)
    }
}

pub struct BusInterleaved;

impl RowOrder<AgentMsgRow> for BusInterleaved {
    open spec fn le(&self) -> spec_fn(BusV, BusV) -> bool {
        bus_interleaved()
    }

    fn may_precede(&self, a: &AgentMsgRow, b: &AgentMsgRow) -> (r: bool) {
        if a.enqueued_at_ms != b.enqueued_at_ms {
            a.enqueued_at_ms < b.enqueued_at_ms
        } else if a.session_name == b.session_name {
            a.seq <= b.seq
        } else {
            text::str_le(a.session_name.as_str(), b.session_name.as_str())
        }
    }
}

pub struct BusConsumed {
    pub now_ms: u64,
}

impl Change<AgentMsgRow> for BusConsumed {
    open spec fn result(&self) -> spec_fn(BusV) -> BusV {
        bus_consumed(self.now_ms)
    }

    fn apply(&self, row: &mut AgentMsgRow) {
        row.consumed_at_ms = Some(self.now_ms);
    }
}

} // verus!
