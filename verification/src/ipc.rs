//! The requests that a client makes of the daemon, and the events it is answered with.

use vstd::prelude::*;

use crate::node::NodeId;
use crate::text;
use crate::token::Cap;
use crate::token::TokenId;

verus! {

/// How a request refers to a peer.
#[derive(Debug, Clone)]
pub enum PeerSelector {
    /// By its short name.
    Name(String),
    /// By its identifier.
    NodeId(NodeId),
}

/// The model of a peer selector.
pub enum SelectorV {
    Name(Seq<char>),
    NodeId(Seq<u8>),
}

impl View for PeerSelector {
    type V = SelectorV;

    open spec fn view(&self) -> SelectorV {
        match *self {
            PeerSelector::Name(n) => SelectorV::Name(n@),
            PeerSelector::NodeId(n) => SelectorV::NodeId(n@),
        }
    }
}

/// The stable category of a failure. The command line maps these to exit codes.
#[derive(Debug, Clone, Copy, PartialEq, Eq, Structural)]
pub enum IpcErrorCode {
    /// The caller is not authorized.
    Unauthorized,
    /// The token has expired.
    Expired,
    /// The token has been revoked.
    Revoked,
    /// The peer is not in the registry.
    PeerNotKnown,
    /// The requested entity was not found.
    NotFound,
    /// The request is malformed or invalid.
    BadRequest,
    /// The feature is not there yet.
    Unimplemented,
    /// An unexpected failure.
    Internal,
}

/// A failure: a stable code and a message for people.
#[derive(Debug, Clone)]
pub struct IpcError {
    pub code: IpcErrorCode,
    pub message: String,
}

/// The model of a failure.
#[verifier::ext_equal]
pub struct ErrorV {
    pub code: IpcErrorCode,
    pub message: Seq<char>,
}

impl View for IpcError {
    type V = ErrorV;

    open spec fn view(&self) -> ErrorV {
        ErrorV { code: self.code, message: self.message@ }
    }
}

impl IpcError {
    /// A failure with the given code and message.
    pub fn new(code: IpcErrorCode, message: &str) -> (r: Self)
        ensures
            r@ == (ErrorV { code, message: message@ }),
    {
        IpcError { code, message: message.to_owned() }
    }

    /// An unexpected failure.
    pub fn internal(message: &str) -> (r: Self)
        ensures
            r@ == (ErrorV { code: IpcErrorCode::Internal, message: message@ }),
    {
        IpcError::new(IpcErrorCode::Internal, message)
    }

    /// The failure in words: its message.
    pub fn to_string(&self) -> (r: String)
        ensures
            r@ == self.message@,
    {
        self.message.clone()
    }
}

/// Which peers a listing is for.
#[derive(Debug, Clone, Copy, PartialEq, Eq, Structural)]
pub enum PeerFilter {
    All,
    Connected,
    Remote,
    Local,
}

/// Where a peer is known from.
#[derive(Debug, Clone, Copy, PartialEq, Eq, Structural)]
pub enum PeerSource {
    Manual,
    Mdns,
}

/// How a peer is reached at present.
#[derive(Debug, Clone, Copy, PartialEq, Eq, Structural)]
pub enum PeerState {
    Connected { open_streams: u32 },
    Idle,
    Offline,
}

/// One peer in a listing.
#[derive(Debug, Clone)]
pub struct PeerInfo {
    pub nodeid: NodeId,
    pub name: String,
    pub source: PeerSource,
    pub state: PeerState,
    pub last_seen_ms: Option<u64>,
}

/// The model of a peer in a listing.
#[verifier::ext_equal]
pub struct PeerInfoV {
    pub nodeid: Seq<u8>,
    pub name: Seq<char>,
    pub source: PeerSource,
    pub state: PeerState,
    pub last_seen_ms: Option<u64>,
}

impl View for PeerInfo {
    type V = PeerInfoV;

    open spec fn view(&self) -> PeerInfoV {
        PeerInfoV {
            nodeid: self.nodeid@,
            name: self.name@,
            source: self.source,
            state: self.state,
            last_seen_ms: self.last_seen_ms,
        }
    }
}

/// One live connection in a listing.
#[derive(Debug, Clone)]
pub struct ConnInfo {
    pub peer_name: String,
    pub nodeid: NodeId,
    pub since_ms: u64,
    pub streams: Vec<String>,
    pub rx_bytes: u64,
    pub tx_bytes: u64,
    pub rtt_us: Option<u64>,
    pub via_relay: bool,
}

/// The model of a live connection in a listing.
#[verifier::ext_equal]
pub struct ConnInfoV {
    pub peer_name: Seq<char>,
    pub nodeid: Seq<u8>,
    pub since_ms: u64,
    pub streams: Seq<Seq<char>>,
    pub rx_bytes: u64,
    pub tx_bytes: u64,
    pub rtt_us: Option<u64>,
    pub via_relay: bool,
}

impl View for ConnInfo {
    type V = ConnInfoV;

    open spec fn view(&self) -> ConnInfoV {
        ConnInfoV {
            peer_name: self.peer_name@,
            nodeid: self.nodeid@,
            since_ms: self.since_ms,
            streams: text::texts(self.streams@),
            rx_bytes: self.rx_bytes,
            tx_bytes: self.tx_bytes,
            rtt_us: self.rtt_us,
            via_relay: self.via_relay,
        }
    }
}

/// One token in a listing.
#[derive(Debug, Clone)]
pub struct TokenInfo {
    pub id: TokenId,
    pub iss: NodeId,
    pub sub: NodeId,
    pub exp: u64,
    pub caps: Vec<Cap>,
    pub revoked: bool,
}

/// The model of a token in a listing.
#[verifier::ext_equal]
pub struct TokenInfoV {
    pub id: Seq<u8>,
    pub iss: Seq<u8>,
    pub sub: Seq<u8>,
    pub exp: u64,
    pub caps: Seq<Cap>,
    pub revoked: bool,
}

impl View for TokenInfo {
    type V = TokenInfoV;

    open spec fn view(&self) -> TokenInfoV {
        TokenInfoV {
            id: self.id@,
            iss: self.iss@,
            sub: self.sub@,
            exp: self.exp,
            caps: self.caps@,
            revoked: self.revoked,
        }
    }
}

/// How a session's workspace is provisioned.
#[derive(Debug, Clone, Copy, PartialEq, Eq, Structural)]
pub enum FsMode {
    /// A git worktree of the base repository on a fresh branch.
    Worktree,
    /// A fresh empty folder.
    New,
}

/// The kind of a message on the local agent bus.
#[derive(Debug, Clone, Copy, PartialEq, Eq, Structural)]
pub enum AgentMsgKind {
    /// A supervised child finished a turn; the payload is its output.
    TurnOutput,
    /// The prime's reply, fed to the child as its next turn.
    TurnInput,
    /// A free-form message between agents in a group.
    User,
    /// A lifecycle notice.
    Control,
    /// A child's intermediate text, forwarded when the session is traced.
    Trace,
}

/// One group in a listing.
#[derive(Debug, Clone)]
pub struct GroupInfo {
    pub name: String,
    pub created_at_ms: u64,
    pub session_count: u32,
}

/// The model of a group in a listing.
#[verifier::ext_equal]
pub struct GroupInfoV {
    pub name: Seq<char>,
    pub created_at_ms: u64,
    pub session_count: u32,
}

impl View for GroupInfo {
    type V = GroupInfoV;

    open spec fn view(&self) -> GroupInfoV {
        GroupInfoV {
            name: self.name@,
            created_at_ms: self.created_at_ms,
            session_count: self.session_count,
        }
    }
}

/// One session in a listing.
#[derive(Debug, Clone)]
pub struct SessionInfo {
    pub group: String,
    pub name: String,
    pub child_agent: String,
    pub fs_mode: FsMode,
    pub workspace_path: String,
    pub branch: Option<String>,
    pub status: String,
    /// The child agent's own status, if it is known.
    pub child_status: Option<String>,
}

/// The model of a session in a listing.
#[verifier::ext_equal]
pub struct SessionInfoV {
    pub group: Seq<char>,
    pub name: Seq<char>,
    pub child_agent: Seq<char>,
    pub fs_mode: FsMode,
    pub workspace_path: Seq<char>,
    pub branch: Option<Seq<char>>,
    pub status: Seq<char>,
    pub child_status: Option<Seq<char>>,
}

impl View for SessionInfo {
    type V = SessionInfoV;

    open spec fn view(&self) -> SessionInfoV {
        SessionInfoV {
            group: self.group@,
            name: self.name@,
            child_agent: self.child_agent@,
            fs_mode: self.fs_mode,
            workspace_path: self.workspace_path@,
            branch: text::opt_text(self.branch),
            status: self.status@,
            child_status: text::opt_text(self.child_status),
        }
    }
}

/// One agent in a listing.
#[derive(Debug, Clone)]
pub struct AgentInfo {
    pub group: String,
    pub name: String,
    pub role: String,
    pub status: String,
    pub dir: Option<String>,
    pub pid: Option<i64>,
}

/// The model of an agent in a listing.
#[verifier::ext_equal]
pub struct AgentInfoV {
    pub group: Seq<char>,
    pub name: Seq<char>,
    pub role: Seq<char>,
    pub status: Seq<char>,
    pub dir: Option<Seq<char>>,
    pub pid: Option<i64>,
}

impl View for AgentInfo {
    type V = AgentInfoV;

    open spec fn view(&self) -> AgentInfoV {
        AgentInfoV {
            group: self.group@,
            name: self.name@,
            role: self.role@,
            status: self.status@,
            dir: text::opt_text(self.dir),
            pid: self.pid,
        }
    }
}

/// Whom a bearer token belongs to.
#[derive(Debug, Clone)]
pub struct WhoAmIInfo {
    pub group: String,
    pub agent: String,
    pub role: String,
    pub session: Option<String>,
}

/// The model of whom a bearer token belongs to.
#[verifier::ext_equal]
pub struct WhoAmIV {
    pub group: Seq<char>,
    pub agent: Seq<char>,
    pub role: Seq<char>,
    pub session: Option<Seq<char>>,
}

impl View for WhoAmIInfo {
    type V = WhoAmIV;

    open spec fn view(&self) -> WhoAmIV {
        WhoAmIV {
            group: self.group@,
            agent: self.agent@,
            role: self.role@,
            session: text::opt_text(self.session),
        }
    }
}

/// What a client asks for.
#[derive(Debug, Clone)]
pub enum IpcRequest {
    Status,
    NodeId,
    /// The daemon's ticket.
    Ticket,
    PeerAdd { nodeid: NodeId, name: String, addr_blob: Option<Vec<u8>> },
    PeerRm { selector: PeerSelector },
    PeerList { filter: PeerFilter },
    ConnList,
    ConnClose { selector: PeerSelector },
    TokenGrant { peer: PeerSelector, caps: Vec<Cap>, ttl_secs: Option<u64> },
    TokenImport { raw: Vec<u8> },
    TokenList,
    TokenRevoke { id: TokenId },
    Send { peer: PeerSelector, channel: String, payload: Vec<u8> },
    /// Drain the matching part of the inbox, then either end or go on with what arrives.
    /// `since_ms` leaves out messages enqueued at or before it; `None` asks for the full history.
    RecvSubscribe {
        peer: Option<PeerSelector>,
        channel: Option<String>,
        since_ms: Option<u64>,
        follow: bool,
    },
    /// Create a group and its prime agent.
    GroupNew { name: String },
    GroupList,
    SessionList { group: String },
    AgentList { group: Option<String>, session: Option<String> },
    /// Provision a workspace and launch a supervised child in it.
    Spawn {
        token: String,
        group: String,
        session: String,
        base_dir: String,
        fs_mode: FsMode,
        branch: Option<String>,
        label: Option<String>,
        prompt: String,
        harness_argv: Option<Vec<String>>,
        /// Notify the prime once when a turn has been idle for so long.
        idle_timeout_secs: Option<u64>,
        /// The child's permission mode, unless the harness is overridden.
        permission_mode: Option<String>,
        /// Launch the child with every permission check off.
        skip_permissions: bool,
        /// Forward the child's intermediate text to the prime.
        trace: bool,
        /// Spawn the group's prime coordinator instead of a worker.
        coordinator: bool,
    },
    /// Send a message into a session; the daemon finds the other endpoint.
    AgentSend { token: String, session: String, kind: AgentMsgKind, payload: Vec<u8> },
    /// Drain the caller's backlog on the bus, then optionally go on with what arrives.
    AgentRecv {
        token: String,
        session: Option<String>,
        since_ms: Option<u64>,
        follow: bool,
        /// Return only unread messages and mark them read.
        consume: bool,
    },
    AgentKill { token: String, agent: String },
    SessionClose { token: String, session: String, discard: bool },
    WhoAmI { token: String },
}

/// What a client is answered with.
#[derive(Debug, Clone)]
pub enum IpcEvent {
    Done,
    Failed(IpcError),
    StatusInfo { nodeid: NodeId, version: String, endpoint_bound: bool },
    NodeIdValue(NodeId),
    TicketValue(String),
    PeerListItem(PeerInfo),
    PeerListEnd,
    ConnListItem(ConnInfo),
    ConnListEnd,
    TokenIssued { raw: Vec<u8>, info: TokenInfo },
    TokenListItem(TokenInfo),
    TokenListEnd,
    RecvMsg {
        from: NodeId,
        from_name: Option<String>,
        channel: String,
        payload: Vec<u8>,
        ts_ms: u64,
    },
    /// Stands once between the backlog and what arrives live.
    RecvBacklogEnd,
    GroupCreated { group: String, token: String },
    Spawned { group: String, session: String, token: String, workspace: String },
    GroupListItem(GroupInfo),
    GroupListEnd,
    SessionListItem(SessionInfo),
    SessionListEnd,
    AgentListItem(AgentInfo),
    AgentListEnd,
    AgentMsg {
        session: String,
        from_agent: String,
        kind: AgentMsgKind,
        payload: Vec<u8>,
        ts_ms: u64,
    },
    /// Stands once between the agent's backlog and what arrives live.
    AgentBacklogEnd,
    WhoAmIInfo(WhoAmIInfo),
}

/// The model of an event.
pub enum EventV {
    Done,
    Failed(ErrorV),
    StatusInfo { nodeid: Seq<u8>, version: Seq<char>, endpoint_bound: bool },
    NodeIdValue(Seq<u8>),
    TicketValue(Seq<char>),
    PeerListItem(PeerInfoV),
    PeerListEnd,
    ConnListItem(ConnInfoV),
    ConnListEnd,
    TokenIssued { raw: Seq<u8>, info: TokenInfoV },
    TokenListItem(TokenInfoV),
    TokenListEnd,
    RecvMsg {
        from: Seq<u8>,
        from_name: Option<Seq<char>>,
        channel: Seq<char>,
        payload: Seq<u8>,
        ts_ms: u64,
    },
    RecvBacklogEnd,
    GroupCreated { group: Seq<char>, token: Seq<char> },
    Spawned { group: Seq<char>, session: Seq<char>, token: Seq<char>, workspace: Seq<char> },
    GroupListItem(GroupInfoV),
    GroupListEnd,
    SessionListItem(SessionInfoV),
    SessionListEnd,
    AgentListItem(AgentInfoV),
    AgentListEnd,
    AgentMsg {
        session: Seq<char>,
        from_agent: Seq<char>,
        kind: AgentMsgKind,
        payload: Seq<u8>,
        ts_ms: u64,
    },
    AgentBacklogEnd,
    WhoAmI(WhoAmIV),
}

impl View for IpcEvent {
    type V = EventV;

    open spec fn view(&self) -> EventV {
        match *self {
            IpcEvent::Done => EventV::Done,
            IpcEvent::Failed(e) => EventV::Failed(e@),
            IpcEvent::StatusInfo { nodeid, version, endpoint_bound } => EventV::StatusInfo {
                nodeid: nodeid@,
                version: version@,
                endpoint_bound,
            },
            IpcEvent::NodeIdValue(n) => EventV::NodeIdValue(n@),
            IpcEvent::TicketValue(s) => EventV::TicketValue(s@),
            IpcEvent::PeerListItem(p) => EventV::PeerListItem(p@),
            IpcEvent::PeerListEnd => EventV::PeerListEnd,
            IpcEvent::ConnListItem(c) => EventV::ConnListItem(c@),
            IpcEvent::ConnListEnd => EventV::ConnListEnd,
            IpcEvent::TokenIssued { raw, info } => EventV::TokenIssued { raw: raw@, info: info@ },
            IpcEvent::TokenListItem(t) => EventV::TokenListItem(t@),
            IpcEvent::TokenListEnd => EventV::TokenListEnd,
            IpcEvent::RecvMsg { from, from_name, channel, payload, ts_ms } => EventV::RecvMsg {
                from: from@,
                from_name: text::opt_text(from_name),
                channel: channel@,
                payload: payload@,
                ts_ms,
            },
            IpcEvent::RecvBacklogEnd => EventV::RecvBacklogEnd,
            IpcEvent::GroupCreated { group, token } => EventV::GroupCreated {
                group: group@,
                token: token@,
            },
            IpcEvent::Spawned { group, session, token, workspace } => EventV::Spawned {
                group: group@,
                session: session@,
                token: token@,
                workspace: workspace@,
            },
            IpcEvent::GroupListItem(g) => EventV::GroupListItem(g@),
            IpcEvent::GroupListEnd => EventV::GroupListEnd,
            IpcEvent::SessionListItem(s) => EventV::SessionListItem(s@),
            IpcEvent::SessionListEnd => EventV::SessionListEnd,
            IpcEvent::AgentListItem(a) => EventV::AgentListItem(a@),
            IpcEvent::AgentListEnd => EventV::AgentListEnd,
            IpcEvent::AgentMsg { session, from_agent, kind, payload, ts_ms } => EventV::AgentMsg {
                session: session@,
                from_agent: from_agent@,
                kind,
                payload: payload@,
                ts_ms,
            },
            IpcEvent::AgentBacklogEnd => EventV::AgentBacklogEnd,
            IpcEvent::WhoAmIInfo(w) => EventV::WhoAmI(w@),
        }
    }
}

/// The models of a list of events.
pub open spec fn events(v: Seq<IpcEvent>) -> Seq<EventV> {
    crate::table::rows(v)
}

/// The model of a failure with the given code and message.
pub open spec fn failure(code: IpcErrorCode, message: Seq<char>) -> EventV {
    EventV::Failed(ErrorV { code, message })
}

/// A failure with the given code and message.
pub fn err(code: IpcErrorCode, message: &str) -> (r: IpcEvent)
    ensures
        r@ == failure(code, message@),
{
    IpcEvent::Failed(IpcError::new(code, message))
}

} // verus!
