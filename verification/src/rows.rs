//! The rows that the state is kept in.

use vstd::prelude::*;

use crate::node;
use crate::node::NodeId;
use crate::table::Record;
use crate::text;
use crate::token;
use crate::token::Cap;

verus! {

/// The direction of a stored message.
#[derive(Debug, Clone, Copy, PartialEq, Eq, Structural)]
pub enum Direction {
    Out,
    In,
}

impl Direction {
    /// The direction that a number stands for.
    pub fn from_i64(v: i64) -> (r: Option<Self>)
        ensures
            r == match v {
                0 => Some(Direction::Out),
                1 => Some(Direction::In),
                _ => None,
            },
    {
        match v {
            0 => Some(Direction::Out),
            1 => Some(Direction::In),
            _ => None,
        }
    }

    /// The number that stands for the direction.
    pub fn to_i64(&self) -> (r: i64)
        ensures
            r == match *self {
                Direction::Out => 0i64,
                Direction::In => 1i64,
            },
    {
        match self {
            Direction::Out => 0,
            Direction::In => 1,
        }
    }
}

/// How a peer is selected, by name or by identifier.
#[derive(Debug, Clone)]
pub enum PeerSelectorBytes {
    Name(String),
    NodeId(NodeId),
}

impl View for PeerSelectorBytes {
    type V = crate::ipc::SelectorV;

    open spec fn view(&self) -> crate::ipc::SelectorV {
        match *self {
            PeerSelectorBytes::Name(n) => crate::ipc::SelectorV::Name(n@),
            PeerSelectorBytes::NodeId(n) => crate::ipc::SelectorV::NodeId(n@),
        }
    }
}

/// One entry of the table of settings.
#[derive(Debug)]
pub struct MetaRow {
    pub key: String,
    pub value: Vec<u8>,
}

/// The model of a `MetaRow`.
#[verifier::ext_equal]
pub struct MetaV {
    pub key: Seq<char>,
    pub value: Seq<u8>,
}

impl View for MetaRow {
    type V = MetaV;

    open spec fn view(&self) -> MetaV {
        MetaV {
            key: self.key@,
            value: self.value@,
        }
    }
}

impl Record for MetaRow {
    fn copy_row(&self) -> (r: Self) {
        MetaRow {
            key: self.key.clone(),
            value: text::bytes_copy(self.value.as_slice()),
        }
    }
}

impl Clone for MetaRow {
    fn clone(&self) -> (r: Self)
        ensures
            r@ == self@,
    {
        self.copy_row()
    }
}

/// A message to or from a peer.
#[derive(Debug)]
pub struct MessageRow {
    pub sender: NodeId,
    /// The channel's identifier, see `store::channel_id`.
    pub channel_id: [u8; 16],
    /// The sequence number within the sender's channel.
    pub seq: u64,
    pub direction: Direction,
    pub channel: String,
    /// The other side.
    pub peer_nodeid: NodeId,
    pub payload: Vec<u8>,
    pub enqueued_at_ms: u64,
    pub delivered_at_ms: Option<u64>,
}

/// The model of a `MessageRow`.
#[verifier::ext_equal]
pub struct MessageV {
    pub sender: Seq<u8>,
    pub channel_id: Seq<u8>,
    pub seq: u64,
    pub direction: Direction,
    pub channel: Seq<char>,
    pub peer_nodeid: Seq<u8>,
    pub payload: Seq<u8>,
    pub enqueued_at_ms: u64,
    pub delivered_at_ms: Option<u64>,
}

impl View for MessageRow {
    type V = MessageV;

    open spec fn view(&self) -> MessageV {
        MessageV {
            sender: self.sender@,
            channel_id: self.channel_id@,
            seq: self.seq,
            direction: self.direction,
            channel: self.channel@,
            peer_nodeid: self.peer_nodeid@,
            payload: self.payload@,
            enqueued_at_ms: self.enqueued_at_ms,
            delivered_at_ms: self.delivered_at_ms,
        }
    }
}

impl Record for MessageRow {
    fn copy_row(&self) -> (r: Self) {
        MessageRow {
            sender: self.sender,
            channel_id: self.channel_id,
            seq: self.seq,
            direction: self.direction,
            channel: self.channel.clone(),
            peer_nodeid: self.peer_nodeid,
            payload: text::bytes_copy(self.payload.as_slice()),
            enqueued_at_ms: self.enqueued_at_ms,
            delivered_at_ms: self.delivered_at_ms,
        }
    }
}

impl Clone for MessageRow {
    fn clone(&self) -> (r: Self)
        ensures
            r@ == self@,
    {
        self.copy_row()
    }
}

/// A known peer.
#[derive(Debug)]
pub struct PeerRow {
    pub nodeid: NodeId,
    pub name: String,
    pub added_at_ms: u64,
    pub last_seen_ms: Option<u64>,
    /// The encoded address that the peer was added with, if any.
    pub addr_blob: Option<Vec<u8>>,
}

/// The model of a `PeerRow`.
#[verifier::ext_equal]
pub struct PeerV {
    pub nodeid: Seq<u8>,
    pub name: Seq<char>,
    pub added_at_ms: u64,
    pub last_seen_ms: Option<u64>,
    pub addr_blob: Option<Seq<u8>>,
}

impl View for PeerRow {
    type V = PeerV;

    open spec fn view(&self) -> PeerV {
        PeerV {
            nodeid: self.nodeid@,
            name: self.name@,
            added_at_ms: self.added_at_ms,
            last_seen_ms: self.last_seen_ms,
            addr_blob: text::opt_bytes(self.addr_blob),
        }
    }
}

impl Record for PeerRow {
    fn copy_row(&self) -> (r: Self) {
        PeerRow {
            nodeid: self.nodeid,
            name: self.name.clone(),
            added_at_ms: self.added_at_ms,
            last_seen_ms: self.last_seen_ms,
            addr_blob: text::opt_bytes_copy(&self.addr_blob),
        }
    }
}

impl Clone for PeerRow {
    fn clone(&self) -> (r: Self)
        ensures
            r@ == self@,
    {
        self.copy_row()
    }
}

/// A capability token that was issued or imported.
#[derive(Debug)]
pub struct TokenRow {
    pub id: [u8; 16],
    pub iss: NodeId,
    pub sub: NodeId,
    pub exp: u64,
    pub caps: Vec<Cap>,
    /// The encoded signed token.
    pub raw: Vec<u8>,
    pub revoked: bool,
}

/// The model of a `TokenRow`.
#[verifier::ext_equal]
pub struct TokenV {
    pub id: Seq<u8>,
    pub iss: Seq<u8>,
    pub sub: Seq<u8>,
    pub exp: u64,
    pub caps: Seq<Cap>,
    pub raw: Seq<u8>,
    pub revoked: bool,
}

impl View for TokenRow {
    type V = TokenV;

    open spec fn view(&self) -> TokenV {
        TokenV {
            id: self.id@,
            iss: self.iss@,
            sub: self.sub@,
            exp: self.exp,
            caps: self.caps@,
            raw: self.raw@,
            revoked: self.revoked,
        }
    }
}

impl Record for TokenRow {
    fn copy_row(&self) -> (r: Self) {
        TokenRow {
            id: self.id,
            iss: self.iss,
            sub: self.sub,
            exp: self.exp,
            caps: token::caps_copy(&self.caps),
            raw: text::bytes_copy(self.raw.as_slice()),
            revoked: self.revoked,
        }
    }
}

impl Clone for TokenRow {
    fn clone(&self) -> (r: Self)
        ensures
            r@ == self@,
    {
        self.copy_row()
    }
}

/// A group of agents.
#[derive(Debug)]
pub struct GroupRow {
    pub name: String,
    pub created_at_ms: u64,
}

/// The model of a `GroupRow`.
#[verifier::ext_equal]
pub struct GroupV {
    pub name: Seq<char>,
    pub created_at_ms: u64,
}

impl View for GroupRow {
    type V = GroupV;

    open spec fn view(&self) -> GroupV {
        GroupV {
            name: self.name@,
            created_at_ms: self.created_at_ms,
        }
    }
}

impl Record for GroupRow {
    fn copy_row(&self) -> (r: Self) {
        GroupRow {
            name: self.name.clone(),
            created_at_ms: self.created_at_ms,
        }
    }
}

impl Clone for GroupRow {
    fn clone(&self) -> (r: Self)
        ensures
            r@ == self@,
    {
        self.copy_row()
    }
}

/// An agent of a group.
#[derive(Debug)]
pub struct AgentRow {
    pub group_name: String,
    pub name: String,
    /// The digest of the agent's token; the token itself is never kept.
    pub token_hash: Vec<u8>,
    /// `prime` or `child`.
    pub role: String,
    pub dir: Option<String>,
    pub pid: Option<i64>,
    pub status: String,
    pub created_at_ms: u64,
    pub last_seen_ms: Option<u64>,
}

/// The model of a `AgentRow`.
#[verifier::ext_equal]
pub struct AgentV {
    pub group_name: Seq<char>,
    pub name: Seq<char>,
    pub token_hash: Seq<u8>,
    pub role: Seq<char>,
    pub dir: Option<Seq<char>>,
    pub pid: Option<i64>,
    pub status: Seq<char>,
    pub created_at_ms: u64,
    pub last_seen_ms: Option<u64>,
}

impl View for AgentRow {
    type V = AgentV;

    open spec fn view(&self) -> AgentV {
        AgentV {
            group_name: self.group_name@,
            name: self.name@,
            token_hash: self.token_hash@,
            role: self.role@,
            dir: text::opt_text(self.dir),
            pid: self.pid,
            status: self.status@,
            created_at_ms: self.created_at_ms,
            last_seen_ms: self.last_seen_ms,
        }
    }
}

impl Record for AgentRow {
    fn copy_row(&self) -> (r: Self) {
        AgentRow {
            group_name: self.group_name.clone(),
            name: self.name.clone(),
            token_hash: text::bytes_copy(self.token_hash.as_slice()),
            role: self.role.clone(),
            dir: text::opt_text_copy(&self.dir),
            pid: self.pid,
            status: self.status.clone(),
            created_at_ms: self.created_at_ms,
            last_seen_ms: self.last_seen_ms,
        }
    }
}

impl Clone for AgentRow {
    fn clone(&self) -> (r: Self)
        ensures
            r@ == self@,
    {
        self.copy_row()
    }
}

/// A session between a prime and a child.
#[derive(Debug)]
pub struct SessionRow {
    pub group_name: String,
    pub name: String,
    pub prime_agent: String,
    pub child_agent: String,
    /// `worktree` or `new`.
    pub fs_mode: String,
    pub base_dir: Option<String>,
    pub workspace_path: String,
    pub branch: Option<String>,
    /// `active` or `closed`.
    pub status: String,
    pub created_at_ms: u64,
}

/// The model of a `SessionRow`.
#[verifier::ext_equal]
pub struct SessionV {
    pub group_name: Seq<char>,
    pub name: Seq<char>,
    pub prime_agent: Seq<char>,
    pub child_agent: Seq<char>,
    pub fs_mode: Seq<char>,
    pub base_dir: Option<Seq<char>>,
    pub workspace_path: Seq<char>,
    pub branch: Option<Seq<char>>,
    pub status: Seq<char>,
    pub created_at_ms: u64,
}

impl View for SessionRow {
    type V = SessionV;

    open spec fn view(&self) -> SessionV {
        SessionV {
            group_name: self.group_name@,
            name: self.name@,
            prime_agent: self.prime_agent@,
            child_agent: self.child_agent@,
            fs_mode: self.fs_mode@,
            base_dir: text::opt_text(self.base_dir),
            workspace_path: self.workspace_path@,
            branch: text::opt_text(self.branch),
            status: self.status@,
            created_at_ms: self.created_at_ms,
        }
    }
}

impl Record for SessionRow {
    fn copy_row(&self) -> (r: Self) {
        SessionRow {
            group_name: self.group_name.clone(),
            name: self.name.clone(),
            prime_agent: self.prime_agent.clone(),
            child_agent: self.child_agent.clone(),
            fs_mode: self.fs_mode.clone(),
            base_dir: text::opt_text_copy(&self.base_dir),
            workspace_path: self.workspace_path.clone(),
            branch: text::opt_text_copy(&self.branch),
            status: self.status.clone(),
            created_at_ms: self.created_at_ms,
        }
    }
}

impl Clone for SessionRow {
    fn clone(&self) -> (r: Self)
        ensures
            r@ == self@,
    {
        self.copy_row()
    }
}

/// A message on the local agent bus.
#[derive(Debug)]
pub struct AgentMsgRow {
    pub group_name: String,
    pub session_name: String,
    pub seq: u64,
    pub from_agent: String,
    pub to_agent: String,
    pub kind: String,
    pub payload: Vec<u8>,
    pub enqueued_at_ms: u64,
    pub consumed_at_ms: Option<u64>,
}

/// The model of a `AgentMsgRow`.
#[verifier::ext_equal]
pub struct BusV {
    pub group_name: Seq<char>,
    pub session_name: Seq<char>,
    pub seq: u64,
    pub from_agent: Seq<char>,
    pub to_agent: Seq<char>,
    pub kind: Seq<char>,
    pub payload: Seq<u8>,
    pub enqueued_at_ms: u64,
    pub consumed_at_ms: Option<u64>,
}

impl View for AgentMsgRow {
    type V = BusV;

    open spec fn view(&self) -> BusV {
        BusV {
            group_name: self.group_name@,
            session_name: self.session_name@,
            seq: self.seq,
            from_agent: self.from_agent@,
            to_agent: self.to_agent@,
            kind: self.kind@,
            payload: self.payload@,
            enqueued_at_ms: self.enqueued_at_ms,
            consumed_at_ms: self.consumed_at_ms,
        }
    }
}

impl Record for AgentMsgRow {
    fn copy_row(&self) -> (r: Self) {
        AgentMsgRow {
            group_name: self.group_name.clone(),
            session_name: self.session_name.clone(),
            seq: self.seq,
            from_agent: self.from_agent.clone(),
            to_agent: self.to_agent.clone(),
            kind: self.kind.clone(),
            payload: text::bytes_copy(self.payload.as_slice()),
            enqueued_at_ms: self.enqueued_at_ms,
            consumed_at_ms: self.consumed_at_ms,
        }
    }
}

impl Clone for AgentMsgRow {
    fn clone(&self) -> (r: Self)
        ensures
            r@ == self@,
    {
        self.copy_row()
    }
}

/// A column whose content cannot be read.
#[derive(Debug, Clone)]
pub struct ColumnError {
    pub column: usize,
    pub message: String,
}

/// The message about a column of the wrong length.
pub open spec fn length_message(name: Seq<char>, want: Seq<char>, got: nat) -> Seq<char> {
    name + " must be "@ + want + " bytes, got "@ + text::decimal_text(got)
}

/// Whether `e` says that the column has the wrong length.
pub open spec fn is_length_error(
    e: ColumnError,
    column: int,
    name: Seq<char>,
    want: Seq<char>,
    got: nat,
) -> bool {
    e.column == column && e.message@ == length_message(name, want, got)
}

/// Sixteen bytes out of a column.
pub fn fixed_16(bytes: &Vec<u8>, column: usize, name: &str) -> (r: Result<[u8; 16], ColumnError>)
    ensures
        match r {
            Ok(a) => a@ == bytes@,
            Err(e) => bytes@.len() != 16 && is_length_error(
                e,
                column as int,
                name@,
                "16"@,
                bytes@.len(),
            ),
        },
{
    if bytes.len() == 16 {
        assert(bytes@.take(16) =~= bytes@);
        Ok(node::fixed(bytes.as_slice()))
    } else {
        let m = name.to_owned().concat(" must be ").concat("16").concat(" bytes, got ").concat(
            text::u64_text(bytes.len() as u64).as_str(),
        );
        Err(ColumnError { column, message: m })
    }
}

/// Thirty-two bytes out of a column.
pub fn fixed_32(bytes: &Vec<u8>, column: usize, name: &str) -> (r: Result<[u8; 32], ColumnError>)
    ensures
        match r {
            Ok(a) => a@ == bytes@,
            Err(e) => bytes@.len() != 32 && is_length_error(
                e,
                column as int,
                name@,
                "32"@,
                bytes@.len(),
            ),
        },
{
    if bytes.len() == 32 {
        assert(bytes@.take(32) =~= bytes@);
        Ok(node::fixed(bytes.as_slice()))
    } else {
        let m = name.to_owned().concat(" must be ").concat("32").concat(" bytes, got ").concat(
            text::u64_text(bytes.len() as u64).as_str(),
        );
        Err(ColumnError { column, message: m })
    }
}

/// A stored number as the unsigned number it was written from.
pub fn unsigned(v: i64) -> (r: u64)
    ensures
        r == v as u64,
{
    v as u64
}

/// A stored optional number as the unsigned number it was written from.
pub fn opt_unsigned(v: Option<i64>) -> (r: Option<u64>)
    ensures
        r == match v {
            Some(n) => Some(n as u64),
            None => None,
        },
{
    match v {
        Some(n) => Some(n as u64),
        None => None,
    }
}

/// The columns of a stored message.
pub struct MessageColumns {
    pub sender: Vec<u8>,
    pub channel_id: Vec<u8>,
    pub seq: i64,
    pub direction: i64,
    pub channel: String,
    pub peer_nodeid: Vec<u8>,
    pub payload: Vec<u8>,
    pub enqueued_at_ms: i64,
    pub delivered_at_ms: Option<i64>,
}

/// Whether this is what the columns of a message are read as. The first column that cannot be read is
/// reported.
pub open spec fn message_read(c: MessageColumns, r: Result<MessageRow, ColumnError>) -> bool {
    match r {
        Ok(m) => {
            &&& (c.direction == 0 || c.direction == 1)
            &&& m@ == MessageV {
                sender: c.sender@,
                channel_id: c.channel_id@,
                seq: c.seq as u64,
                direction: if c.direction == 0 {
                    Direction::Out
                } else {
                    Direction::In
                },
                channel: c.channel@,
                peer_nodeid: c.peer_nodeid@,
                payload: c.payload@,
                enqueued_at_ms: c.enqueued_at_ms as u64,
                delivered_at_ms: match c.delivered_at_ms {
                    Some(n) => Some(n as u64),
                    None => None,
                },
            }
        },
        Err(e) => if c.sender@.len() != 32 {
            is_length_error(e, 0, "messages.id_sender"@, "32"@, c.sender@.len())
        } else if c.channel_id@.len() != 16 {
            is_length_error(e, 1, "messages.id_channel"@, "16"@, c.channel_id@.len())
        } else if c.direction != 0 && c.direction != 1 {
            e.column == 3 && e.message@ == "invalid direction"@
        } else {
            &&& c.peer_nodeid@.len() != 32
            &&& is_length_error(e, 5, "messages.peer_nodeid"@, "32"@, c.peer_nodeid@.len())
        },
    }
}

/// Reads a message out of its columns. The first column that cannot be read is reported.
pub fn row_to_message(c: MessageColumns) -> (r: Result<MessageRow, ColumnError>)
    ensures
        message_read(c, r),
{
    let sender = match fixed_32(&c.sender, 0, "messages.id_sender") {
        Ok(a) => a,
        Err(e) => return Err(e),
    };
    assert(c.sender@.len() == 32);
    let cid = match fixed_16(&c.channel_id, 1, "messages.id_channel") {
        Ok(a) => a,
        Err(e) => return Err(e),
    };
    assert(c.channel_id@.len() == 16);
    let direction = match Direction::from_i64(c.direction) {
        Some(d) => d,
        None => return Err(ColumnError { column: 3, message: "invalid direction".to_owned() }),
    };
    let peer = match fixed_32(&c.peer_nodeid, 5, "messages.peer_nodeid") {
        Ok(a) => a,
        Err(e) => return Err(e),
    };
    Ok(
        MessageRow {
            sender: NodeId(sender),
            channel_id: cid,
            seq: unsigned(c.seq),
            direction,
            channel: c.channel,
            peer_nodeid: NodeId(peer),
            payload: c.payload,
            enqueued_at_ms: unsigned(c.enqueued_at_ms),
            delivered_at_ms: opt_unsigned(c.delivered_at_ms),
        },
    )
}

/// Whether this is what the columns of a peer are read as.
pub open spec fn peer_read(
    nodeid: Seq<u8>,
    name: Seq<char>,
    added_at_ms: i64,
    last_seen_ms: Option<i64>,
    addr_blob: Option<Seq<u8>>,
    r: Result<PeerRow, ColumnError>,
) -> bool {
    match r {
        Ok(p) => p@ == (PeerV {
            nodeid,
            name,
            added_at_ms: added_at_ms as u64,
            last_seen_ms: match last_seen_ms {
                Some(n) => Some(n as u64),
                None => None,
            },
            addr_blob,
        }),
        Err(e) => nodeid.len() != 32 && is_length_error(e, 0, "nodeid"@, "32"@, nodeid.len()),
    }
}

/// Reads a peer out of its columns.
pub fn row_to_peer(
    nodeid: Vec<u8>,
    name: String,
    added_at_ms: i64,
    last_seen_ms: Option<i64>,
    addr_blob: Option<Vec<u8>>,
) -> (r: Result<PeerRow, ColumnError>)
    ensures
        peer_read(nodeid@, name@, added_at_ms, last_seen_ms, text::opt_bytes(addr_blob), r),
{
    match fixed_32(&nodeid, 0, "nodeid") {
        Ok(a) => Ok(
            PeerRow {
                nodeid: NodeId(a),
                name,
                added_at_ms: unsigned(added_at_ms),
                last_seen_ms: opt_unsigned(last_seen_ms),
                addr_blob,
            },
        ),
        Err(e) => Err(e),
    }
}

/// The columns of a stored token. The capabilities are those that the stored list names; a list
/// that cannot be read names none.
pub struct TokenColumns {
    pub id: Vec<u8>,
    pub iss: Vec<u8>,
    pub sub: Vec<u8>,
    pub exp: i64,
    pub caps: Vec<Cap>,
    pub raw: Vec<u8>,
    pub revoked: i64,
}

/// Whether this is what the columns of a token are read as. The first column that cannot be read is
/// reported.
pub open spec fn token_read(c: TokenColumns, r: Result<TokenRow, ColumnError>) -> bool {
    match r {
        Ok(t) => t@ == (TokenV {
            id: c.id@,
            iss: c.iss@,
            sub: c.sub@,
            exp: c.exp as u64,
            caps: c.caps@,
            raw: c.raw@,
            revoked: c.revoked != 0,
        }),
        Err(e) => if c.id@.len() != 16 {
            is_length_error(e, 0, "id"@, "16"@, c.id@.len())
        } else if c.iss@.len() != 32 {
            is_length_error(e, 1, "iss"@, "32"@, c.iss@.len())
        } else {
            c.sub@.len() != 32 && is_length_error(e, 2, "sub"@, "32"@, c.sub@.len())
        },
    }
}

/// Reads a token out of its columns. The first column that cannot be read is reported.
pub fn row_to_token(c: TokenColumns) -> (r: Result<TokenRow, ColumnError>)
    ensures
        token_read(c, r),
{
    let id = match fixed_16(&c.id, 0, "id") {
        Ok(a) => a,
        Err(e) => return Err(e),
    };
    assert(c.id@.len() == 16);
    let iss = match fixed_32(&c.iss, 1, "iss") {
        Ok(a) => a,
        Err(e) => return Err(e),
    };
    assert(c.iss@.len() == 32);
    let sub = match fixed_32(&c.sub, 2, "sub") {
        Ok(a) => a,
        Err(e) => return Err(e),
    };
    Ok(
        TokenRow {
            id,
            iss: NodeId(iss),
            sub: NodeId(sub),
            exp: unsigned(c.exp),
            caps: c.caps,
            raw: c.raw,
            revoked: c.revoked != 0,
        },
    )
}

/// A message is read back from the columns that hold it, whatever it holds.
pub proof fn law_message_is_read_back(
    c: MessageColumns,
    m: MessageV,
    r: Result<MessageRow, ColumnError>,
)
    requires
        message_read(c, r),
        c.sender@ == m.sender,
        c.channel_id@ == m.channel_id,
        c.seq as u64 == m.seq,
        c.direction == if m.direction is Out {
            0i64
        } else {
            1i64
        },
        c.channel@ == m.channel,
        c.peer_nodeid@ == m.peer_nodeid,
        c.payload@ == m.payload,
        c.enqueued_at_ms as u64 == m.enqueued_at_ms,
        c.delivered_at_ms is Some == m.delivered_at_ms is Some,
        c.delivered_at_ms is Some ==> c.delivered_at_ms->0 as u64 == m.delivered_at_ms->0,
        m.sender.len() == 32,
        m.channel_id.len() == 16,
        m.peer_nodeid.len() == 32,
    ensures
        r matches Ok(row) && row@ == m,
{
}

/// What is not a message is not read as one: a column of another length, or a direction that is neither
/// of the two, is reported by its place, the first of them.
pub proof fn law_bad_message_is_reported(c: MessageColumns, r: Result<MessageRow, ColumnError>)
    requires
        message_read(c, r),
    ensures
        c.sender@.len() != 32 ==> (r matches Err(e) && e.column == 0),
        c.sender@.len() == 32 && c.channel_id@.len() != 16 ==> (r matches Err(e) && e.column == 1),
        c.sender@.len() == 32 && c.channel_id@.len() == 16 && c.direction != 0 && c.direction != 1
            ==> (r matches Err(e) && e.column == 3),
        r is Err && c.sender@.len() == 32 && c.channel_id@.len() == 16 && (c.direction == 0
            || c.direction == 1) ==> r->Err_0.column == 5 && c.peer_nodeid@.len() != 32,
        r matches Ok(m) ==> m@.direction is Out == (c.direction == 0),
{
    if let Ok(m) = r {
        assert(m@.sender.len() == 32);
        assert(m@.channel_id.len() == 16);
    }
}

/// A peer is read back from the columns that hold it.
pub proof fn law_peer_is_read_back(
    p: PeerV,
    added_at_ms: i64,
    last_seen_ms: Option<i64>,
    r: Result<PeerRow, ColumnError>,
)
    requires
        peer_read(p.nodeid, p.name, added_at_ms, last_seen_ms, p.addr_blob, r),
        added_at_ms as u64 == p.added_at_ms,
        last_seen_ms is Some == p.last_seen_ms is Some,
        last_seen_ms is Some ==> last_seen_ms->0 as u64 == p.last_seen_ms->0,
        p.nodeid.len() == 32,
    ensures
        r matches Ok(row) && row@ == p,
{
}

/// A token is read back from the columns that hold it, and counts as revoked where its column is not
/// zero.
pub proof fn law_token_is_read_back(
    c: TokenColumns,
    t: TokenV,
    r: Result<TokenRow, ColumnError>,
)
    requires
        token_read(c, r),
        c.id@ == t.id,
        c.iss@ == t.iss,
        c.sub@ == t.sub,
        c.exp as u64 == t.exp,
        c.caps@ == t.caps,
        c.raw@ == t.raw,
        t.revoked ==> c.revoked == 1,
        !t.revoked ==> c.revoked == 0,
        t.id.len() == 16,
        t.iss.len() == 32,
        t.sub.len() == 32,
    ensures
        r matches Ok(row) && row@ == t,
{
}

/// A column of the wrong length is reported by its place, with its name and both lengths.
pub proof fn law_wrong_length_is_reported(
    e: ColumnError,
    column: int,
    name: Seq<char>,
    want: Seq<char>,
    got: nat,
)
    requires
        is_length_error(e, column, name, want, got),
    ensures
        e.column == column,
        e.message@ == name + " must be "@ + want + " bytes, got "@ + text::decimal_text(got),
{
}

} // verus!
