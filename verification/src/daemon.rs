//! The daemon's state, and how it answers the requests about peers, tokens and messages.
//!
//! A request is answered with events and with what is to be done next by whoever drives the daemon.
//! Some requests take more than one step: what only the driver can do (encode a value, provision a
//! directory, launch a process) is asked for, and the answer goes on from the result.

use vstd::prelude::*;

use crate::auth;
use crate::auth::AuthError;
use crate::bus::BusEvent;
use crate::bus::BusEventV;
use crate::conns;
use crate::conns::Conns;
use crate::conns::LinkV;
use crate::crypto;
use crate::crypto::Identity;
use crate::harness::HarnessSpec;
use crate::harness::SpecV;
use crate::ipc;
use crate::ipc::EventV;
use crate::ipc::FsMode;
use crate::ipc::IpcErrorCode;
use crate::ipc::IpcEvent;
use crate::ipc::PeerFilter;
use crate::ipc::PeerInfo;
use crate::ipc::PeerInfoV;
use crate::ipc::PeerSelector;
use crate::ipc::PeerSource;
use crate::ipc::PeerState;
use crate::ipc::SelectorV;
use crate::ipc::TokenInfo;
use crate::ipc::TokenInfoV;
use crate::lan::LanPeers;
use crate::lan::LanV;
use crate::node::NodeId;
use crate::peering;
use crate::peering::Senders;
use crate::peering::SendersV;
use crate::queries;
use crate::rows::MessageV;
use crate::rows::PeerSelectorBytes;
use crate::rows::PeerV;
use crate::rows::TokenV;
use crate::store;
use crate::store::Store;
use crate::store::StoreV;
use crate::supervisor::Supervisor;
use crate::supervisor::SupervisorV;
use crate::table;
use crate::text;
use crate::ticket;
use crate::token;
use crate::token::Cap;
use crate::token::CapabilityToken;
use crate::token::ClaimsV;
use crate::token::SignedToken;
use crate::token::TokenId;
use crate::workspace::TeardownStep;
use crate::workspace::TeardownV;
use crate::workspace::Workspace;
use crate::workspace::WorkspaceV;

verus! {

/// How many messages a backlog shows at most.
pub const BACKLOG_LIMIT: usize = 10_000;

/// The state of the daemon.
pub struct DaemonState {
    pub identity: Identity,
    pub store: Store,
    pub conns: Conns,
    pub lan: LanPeers,
    /// The install's root directory.
    pub home: String,
    /// The command that overrides the harness, if any.
    pub harness_cmd: Option<String>,
    /// The program of the built-in harness.
    pub harness_program: String,
    /// The version that the daemon reports.
    pub version: String,
}

/// The model of the daemon's state.
#[verifier::ext_equal]
pub struct DaemonV {
    pub secret: Seq<u8>,
    pub store: StoreV,
    pub conns: Seq<LinkV>,
    pub lan: Seq<LanV>,
    pub home: Seq<char>,
    pub harness_cmd: Option<Seq<char>>,
    pub harness_program: Seq<char>,
    pub version: Seq<char>,
}

impl View for DaemonState {
    type V = DaemonV;

    open spec fn view(&self) -> DaemonV {
        DaemonV {
            secret: self.identity@,
            store: self.store@,
            conns: self.conns@,
            lan: self.lan@,
            home: self.home@,
            harness_cmd: text::opt_text(self.harness_cmd),
            harness_program: self.harness_program@,
            version: self.version@,
        }
    }
}

/// The identifier of the local node.
pub open spec fn local_id(s: DaemonV) -> Seq<u8> {
    crypto::ed25519_public(s.secret)
}

/// The daemon with another store.
pub open spec fn with_store(s: DaemonV, store: StoreV) -> DaemonV {
    DaemonV { store, ..s }
}

/// What a request needs of the world: the time, and what chance provides.
pub struct Moment {
    pub now_ms: u64,
    pub now_secs: u64,
    /// A fresh bearer token.
    pub token: String,
    /// A fresh token identifier.
    pub id: TokenId,
}

/// The model of a moment.
#[verifier::ext_equal]
pub struct MomentV {
    pub now_ms: u64,
    pub now_secs: u64,
    pub token: Seq<char>,
    pub id: Seq<u8>,
}

impl View for Moment {
    type V = MomentV;

    open spec fn view(&self) -> MomentV {
        MomentV {
            now_ms: self.now_ms,
            now_secs: self.now_secs,
            token: self.token@,
            id: self.id@,
        }
    }
}

/// A session that is to be spawned.
#[derive(Debug)]
pub struct SpawnOrder {
    pub group: String,
    pub session: String,
    /// The agent that asked for it.
    pub prime: String,
    pub base_dir: String,
    pub fs_mode: FsMode,
    pub prompt: String,
    pub harness_argv: Option<Vec<String>>,
    pub idle_timeout_secs: Option<u64>,
    pub permission_mode: Option<String>,
    pub skip_permissions: bool,
    pub trace: bool,
    pub coordinator: bool,
}

/// The model of a session that is to be spawned.
#[verifier::ext_equal]
pub struct OrderV {
    pub group: Seq<char>,
    pub session: Seq<char>,
    pub prime: Seq<char>,
    pub base_dir: Seq<char>,
    pub fs_mode: FsMode,
    pub prompt: Seq<char>,
    pub harness_argv: Option<Seq<Seq<char>>>,
    pub idle_timeout_secs: Option<u64>,
    pub permission_mode: Option<Seq<char>>,
    pub skip_permissions: bool,
    pub trace: bool,
    pub coordinator: bool,
}

/// The model of an optional list of texts.
pub open spec fn opt_texts(v: Option<Vec<String>>) -> Option<Seq<Seq<char>>> {
    match v {
        Some(t) => Some(text::texts(t@)),
        None => None,
    }
}

impl View for SpawnOrder {
    type V = OrderV;

    open spec fn view(&self) -> OrderV {
        OrderV {
            group: self.group@,
            session: self.session@,
            prime: self.prime@,
            base_dir: self.base_dir@,
            fs_mode: self.fs_mode,
            prompt: self.prompt@,
            harness_argv: opt_texts(self.harness_argv),
            idle_timeout_secs: self.idle_timeout_secs,
            permission_mode: text::opt_text(self.permission_mode),
            skip_permissions: self.skip_permissions,
            trace: self.trace,
            coordinator: self.coordinator,
        }
    }
}

/// A harness that is to be launched for a session.
#[derive(Debug)]
pub struct LaunchOrder {
    pub order: SpawnOrder,
    pub workspace: Workspace,
    /// The child's bearer token.
    pub token: String,
    pub spec: HarnessSpec,
}

/// The model of a harness that is to be launched.
#[verifier::ext_equal]
pub struct LaunchV {
    pub order: OrderV,
    pub workspace: WorkspaceV,
    pub token: Seq<char>,
    pub spec: SpecV,
}

impl View for LaunchOrder {
    type V = LaunchV;

    open spec fn view(&self) -> LaunchV {
        LaunchV {
            order: self.order@,
            workspace: self.workspace@,
            token: self.token@,
            spec: self.spec@,
        }
    }
}

/// The place of a message on the bus of a group.
#[derive(Debug)]
pub struct Mark {
    pub session: String,
    pub seq: u64,
}

/// The model of a place on the bus.
#[verifier::ext_equal]
pub struct MarkV {
    pub session: Seq<char>,
    pub seq: u64,
}

impl View for Mark {
    type V = MarkV;

    open spec fn view(&self) -> MarkV {
        MarkV { session: self.session@, seq: self.seq }
    }
}

/// A reading of the bus.
#[derive(Debug)]
pub struct BusReading {
    pub group: String,
    pub agent: String,
    pub session: Option<String>,
    /// Whether what was sent is marked as read.
    pub consume: bool,
    /// The places of the first events, where these are to be marked.
    pub marks: Vec<Mark>,
    /// Whether to go on with what arrives.
    pub follow: bool,
}

/// The model of a reading of the bus.
#[verifier::ext_equal]
pub struct BusReadingV {
    pub group: Seq<char>,
    pub agent: Seq<char>,
    pub session: Option<Seq<char>>,
    pub consume: bool,
    pub marks: Seq<MarkV>,
    pub follow: bool,
}

impl View for BusReading {
    type V = BusReadingV;

    open spec fn view(&self) -> BusReadingV {
        BusReadingV {
            group: self.group@,
            agent: self.agent@,
            session: text::opt_text(self.session),
            consume: self.consume,
            marks: table::rows(self.marks@),
            follow: self.follow,
        }
    }
}

/// What is to be done besides sending the events. Following comes after the events are sent, and so
/// does each mark of a reading after its own event; everything else comes first.
pub enum Next {
    /// Nothing.
    Done,
    /// Encode the local address and go on with `ticket_reply`.
    Ticket,
    /// Encode the claims, sign them with `sign_claims`, encode the signed token, and go on with
    /// `granted`.
    Encode(CapabilityToken),
    /// Decode the signed token and go on with `import`.
    Decode(Vec<u8>),
    /// Wake the delivery to a peer.
    Wake(NodeId),
    /// Go on with what arrives in the inbox.
    FollowInbox { peer: Senders, channel: Option<String> },
    /// Mark each message with `followed` once it is sent, and go on with what arrives on the bus
    /// for the agent.
    ReadBus(BusReading),
    /// Publish a message on the bus.
    Publish(BusEvent),
    /// Provision the workspace and go on with `provisioned`.
    Provision(SpawnOrder),
    /// Launch the harness and go on with `launched`.
    Launch(LaunchOrder),
    /// Publish the messages and supervise the harness.
    Supervise(Supervisor, Vec<BusEvent>),
    /// Tear the workspace down.
    Undo(Vec<TeardownStep>),
    /// End the child's supervisor.
    Kill { group: String, agent: String },
    /// End the child's supervisor and tear the workspace down.
    Close { group: String, agent: String, steps: Vec<TeardownStep> },
}

/// The model of what is to be done.
pub enum NextV {
    Done,
    Ticket,
    Encode(ClaimsV),
    Decode(Seq<u8>),
    Wake(Seq<u8>),
    FollowInbox { peer: SendersV, channel: Option<Seq<char>> },
    ReadBus(BusReadingV),
    Publish(BusEventV),
    Provision(OrderV),
    Launch(LaunchV),
    Supervise(SupervisorV, Seq<BusEventV>),
    Undo(Seq<TeardownV>),
    Kill { group: Seq<char>, agent: Seq<char> },
    Close { group: Seq<char>, agent: Seq<char>, steps: Seq<TeardownV> },
}

impl View for Next {
    type V = NextV;

    open spec fn view(&self) -> NextV {
        match *self {
            Next::Done => NextV::Done,
            Next::Ticket => NextV::Ticket,
            Next::Encode(c) => NextV::Encode(c@),
            Next::Decode(b) => NextV::Decode(b@),
            Next::Wake(n) => NextV::Wake(n@),
            Next::FollowInbox { peer, channel } => NextV::FollowInbox {
                peer: peer@,
                channel: text::opt_text(channel),
            },
            Next::ReadBus(b) => NextV::ReadBus(b@),
            Next::Publish(e) => NextV::Publish(e@),
            Next::Provision(o) => NextV::Provision(o@),
            Next::Launch(l) => NextV::Launch(l@),
            Next::Supervise(s, e) => NextV::Supervise(s@, table::rows(e@)),
            Next::Undo(steps) => NextV::Undo(table::rows(steps@)),
            Next::Kill { group, agent } => NextV::Kill { group: group@, agent: agent@ },
            Next::Close { group, agent, steps } => NextV::Close {
                group: group@,
                agent: agent@,
                steps: table::rows(steps@),
            },
        }
    }
}

/// How a request is answered.
pub struct Reply {
    pub events: Vec<IpcEvent>,
    pub next: Next,
}

/// The model of an answer, together with the state it leaves.
#[verifier::ext_equal]
pub struct ReplyV {
    pub state: DaemonV,
    pub events: Seq<EventV>,
    pub next: NextV,
}

/// The model of an answer that leaves the given state.
pub open spec fn replied(state: DaemonV, r: Reply) -> ReplyV {
    ReplyV { state, events: ipc::events(r.events@), next: r.next@ }
}

/// An answer of one event.
pub open spec fn answer(state: DaemonV, e: EventV) -> ReplyV {
    ReplyV { state, events: seq![e], next: NextV::Done }
}

/// An answer of one event, with something to be done.
pub open spec fn answer_and(state: DaemonV, e: EventV, next: NextV) -> ReplyV {
    ReplyV { state, events: seq![e], next }
}

/// A refusal.
pub open spec fn refuse(state: DaemonV, code: IpcErrorCode, message: Seq<char>) -> ReplyV {
    answer(state, ipc::failure(code, message))
}

/// Something to be done before there is an answer.
pub open spec fn not_yet(state: DaemonV, next: NextV) -> ReplyV {
    ReplyV { state, events: Seq::empty(), next }
}

/// An answer of one event.
pub fn one(e: IpcEvent, next: Next) -> (r: Reply)
    ensures
        ipc::events(r.events@) == seq![e@],
        r.next == next,
{
    let mut events: Vec<IpcEvent> = Vec::new();
    events.push(e);
    assert(ipc::events(events@) =~= seq![e@]);
    Reply { events, next }
}

/// A refusal.
pub fn refusal(code: IpcErrorCode, message: &str) -> (r: Reply)
    ensures
        ipc::events(r.events@) == seq![ipc::failure(code, message@)],
        r.next@ == NextV::Done,
{
    one(ipc::err(code, message), Next::Done)
}

/// No answer yet.
pub fn later(next: Next) -> (r: Reply)
    ensures
        ipc::events(r.events@) == Seq::<EventV>::empty(),
        r.next == next,
{
    let events: Vec<IpcEvent> = Vec::new();
    assert(ipc::events(events@) =~= Seq::<EventV>::empty());
    Reply { events, next }
}

/// The selector of a request, as the store takes it.
pub fn sel_to_bytes(s: &PeerSelector) -> (r: PeerSelectorBytes)
    ensures
        r@ == s@,
{
    match s {
        PeerSelector::Name(n) => PeerSelectorBytes::Name(n.clone()),
        PeerSelector::NodeId(n) => PeerSelectorBytes::NodeId(*n),
    }
}

// ===== what the answers are =====

/// The state in which a known peer is listed.
pub open spec fn peer_state(p: PeerV, links: Seq<LinkV>) -> PeerState {
    match table::first_of(links, conns::link_to(p.nodeid)) {
        Some(l) => PeerState::Connected { open_streams: l.stream_labels.len() as u32 },
        None => if p.last_seen_ms is Some {
            PeerState::Idle
        } else {
            PeerState::Offline
        },
    }
}

/// A known peer as it is listed.
pub open spec fn known_info(p: PeerV, links: Seq<LinkV>) -> PeerInfoV {
    PeerInfoV {
        nodeid: p.nodeid,
        name: p.name,
        source: PeerSource::Manual,
        state: peer_state(p, links),
        last_seen_ms: p.last_seen_ms,
    }
}

/// A peer seen on the local network as it is listed.
pub open spec fn lan_info(l: LanV) -> PeerInfoV {
    PeerInfoV {
        nodeid: l.nodeid,
        name: l.instance,
        source: PeerSource::Mdns,
        state: PeerState::Idle,
        last_seen_ms: Some(l.last_seen_ms),
    }
}

/// Whether a listing with the given filter shows a peer.
pub open spec fn filter_ok(f: PeerFilter, p: PeerInfoV) -> bool {
    match f {
        PeerFilter::All => true,
        PeerFilter::Remote => p.source is Manual,
        PeerFilter::Local => p.source is Mdns,
        PeerFilter::Connected => p.state is Connected,
    }
}

/// The known peers that a listing shows, by name.
pub open spec fn known_items(s: DaemonV, f: PeerFilter) -> Seq<EventV> {
    table::stable_order(s.store.peers, queries::peers_by_name()).map_values(
        |p: PeerV| known_info(p, s.conns),
    ).filter(|i: PeerInfoV| filter_ok(f, i)).map_values(|i: PeerInfoV| EventV::PeerListItem(i))
}

/// Whether a peer on the local network is not a known one.
pub open spec fn lan_only(s: DaemonV) -> spec_fn(LanV) -> bool {
    |l: LanV| !table::any_of(s.store.peers, queries::peer_selected(SelectorV::NodeId(l.nodeid)))
}

/// The peers on the local network that a listing shows: those that are not known already.
pub open spec fn lan_items(s: DaemonV, f: PeerFilter) -> Seq<EventV> {
    if f is All || f is Local {
        s.lan.filter(lan_only(s)).map_values(|l: LanV| EventV::PeerListItem(lan_info(l)))
    } else {
        Seq::empty()
    }
}

/// The answer to a listing of peers.
pub open spec fn peer_list_reply(s: DaemonV, f: PeerFilter) -> ReplyV {
    ReplyV {
        state: s,
        events: (known_items(s, f) + lan_items(s, f)).push(EventV::PeerListEnd),
        next: NextV::Done,
    }
}

/// The answer to the addition of a peer.
pub open spec fn peer_add_reply(
    s: DaemonV,
    nodeid: Seq<u8>,
    name: Seq<char>,
    addr_blob: Option<Seq<u8>>,
    now_ms: u64,
) -> ReplyV {
    match store::peer_added(s.store, nodeid, name, addr_blob, now_ms) {
        Some(t) => answer(with_store(s, t), EventV::Done),
        None => refuse(
            s,
            IpcErrorCode::Internal,
            store::explanation(store::StoreError::PeerNameTaken),
        ),
    }
}

/// The answer to the removal of a peer.
pub open spec fn peer_rm_reply(s: DaemonV, sel: SelectorV) -> ReplyV {
    if table::any_of(s.store.peers, queries::peer_selected(sel)) {
        answer(with_store(s, store::peer_removed(s.store, sel)), EventV::Done)
    } else {
        refuse(s, IpcErrorCode::NotFound, "no such peer"@)
    }
}

/// The answer with the ticket of the encoded local address, where it could be encoded.
pub open spec fn ticketed(s: DaemonV, address: Option<Seq<u8>>) -> ReplyV {
    match address {
        Some(a) => answer(s, EventV::TicketValue(ticket::ticket_text(a))),
        None => refuse(s, IpcErrorCode::Internal, "ticket CBOR encode failed"@),
    }
}

/// The answer to the import of what could not be decoded.
pub open spec fn undecodable_reply(s: DaemonV, reason: Seq<char>) -> ReplyV {
    refuse(s, IpcErrorCode::BadRequest, "decode signed token: "@ + reason)
}

/// The answer to a listing of connections.
pub open spec fn conn_list_reply(s: DaemonV) -> ReplyV {
    ReplyV {
        state: s,
        events: s.conns.map_values(|l: LinkV| EventV::ConnListItem(conns::listed(l))).push(
            EventV::ConnListEnd,
        ),
        next: NextV::Done,
    }
}

/// The claims of a token that is granted.
pub open spec fn granted_claims(
    s: DaemonV,
    sub: Seq<u8>,
    caps: Seq<Cap>,
    ttl_secs: Option<u64>,
    at: MomentV,
) -> ClaimsV {
    ClaimsV {
        iss: local_id(s),
        sub,
        exp: auth::expiry(ttl_secs, at.now_secs),
        caps,
        id: at.id,
    }
}

/// The first answer to a grant.
pub open spec fn token_grant_reply(
    s: DaemonV,
    peer: SelectorV,
    caps: Seq<Cap>,
    ttl_secs: Option<u64>,
    at: MomentV,
) -> ReplyV {
    match store::peer_of(s.store, peer) {
        None => refuse(s, IpcErrorCode::NotFound, "peer not found"@),
        Some(p) => not_yet(s, NextV::Encode(granted_claims(s, p.nodeid, caps, ttl_secs, at))),
    }
}

/// Claims as they are listed.
pub open spec fn claims_info(c: ClaimsV) -> TokenInfoV {
    TokenInfoV { id: c.id, iss: c.iss, sub: c.sub, exp: c.exp, caps: c.caps, revoked: false }
}

/// A stored token as it is listed.
pub open spec fn token_info(t: TokenV) -> TokenInfoV {
    TokenInfoV { id: t.id, iss: t.iss, sub: t.sub, exp: t.exp, caps: t.caps, revoked: t.revoked }
}

/// The last answer to a grant.
pub open spec fn granted_reply(s: DaemonV, c: ClaimsV, raw: Seq<u8>) -> ReplyV {
    answer(
        with_store(s, store::token_inserted(s.store, auth::row_of(c, raw))),
        EventV::TokenIssued { raw, info: claims_info(c) },
    )
}

/// The last answer to an import. `claims` is what the token's claims decode to, and `raw` is the
/// token encoded again.
pub open spec fn import_reply(
    s: DaemonV,
    signed: SignedToken,
    claims: Option<ClaimsV>,
    raw: Seq<u8>,
) -> ReplyV {
    match claims {
        None => refuse(
            s,
            IpcErrorCode::Unauthorized,
            "verify token signature: "@ + auth::auth_error_text(AuthError::BadClaims),
        ),
        Some(c) => if !auth::signed_by_issuer(signed, c) {
            refuse(
                s,
                IpcErrorCode::Unauthorized,
                "verify token signature: "@ + auth::auth_error_text(AuthError::BadSignature),
            )
        } else if c.sub != local_id(s) {
            refuse(s, IpcErrorCode::BadRequest, "token subject is not this install"@)
        } else if !auth::peer_known(s.store, c.iss) {
            refuse(s, IpcErrorCode::BadRequest, "token issuer is not a known peer"@)
        } else {
            ReplyV {
                state: with_store(s, store::token_inserted(s.store, auth::row_of(c, raw))),
                events: seq![EventV::TokenListItem(claims_info(c)), EventV::Done],
                next: NextV::Done,
            }
        },
    }
}

/// The answer to a listing of tokens.
pub open spec fn token_list_reply(s: DaemonV) -> ReplyV {
    ReplyV {
        state: s,
        events: table::stable_order(s.store.tokens, queries::tokens_by_expiry()).map_values(
            |t: TokenV| EventV::TokenListItem(token_info(t)),
        ).push(EventV::TokenListEnd),
        next: NextV::Done,
    }
}

/// The answer to a revocation.
pub open spec fn token_revoke_reply(s: DaemonV, id: Seq<u8>) -> ReplyV {
    if table::any_of(s.store.tokens, queries::token_with_id(id)) {
        answer(with_store(s, store::token_revoked(s.store, id)), EventV::Done)
    } else {
        refuse(s, IpcErrorCode::NotFound, "no such token"@)
    }
}

/// The answer to a message for a peer.
pub open spec fn send_reply(
    s: DaemonV,
    peer: SelectorV,
    channel: Seq<char>,
    payload: Seq<u8>,
    at: MomentV,
) -> ReplyV {
    match store::peer_of(s.store, peer) {
        None => refuse(s, IpcErrorCode::NotFound, "peer not found"@),
        Some(p) => if store::last_message_seq(s.store, local_id(s), store::channel_key(channel))
            == u64::MAX {
            refuse(s, IpcErrorCode::Internal, "sequence numbers exhausted"@)
        } else {
            answer_and(
                with_store(
                    s,
                    store::message_appended(
                        s.store,
                        store::next_outbound(
                            s.store,
                            local_id(s),
                            p.nodeid,
                            channel,
                            payload,
                            at.now_ms,
                        ),
                    ),
                ),
                EventV::Done,
                NextV::Wake(p.nodeid),
            )
        },
    }
}

/// Whose messages pass a filter by peer: without one anybody's, and nobody's where no peer has the
/// name.
pub open spec fn wanted_peer(s: DaemonV, peer: Option<SelectorV>) -> SendersV {
    match peer {
        Some(SelectorV::NodeId(n)) => SendersV::Node(n),
        Some(SelectorV::Name(n)) => match store::peer_of(s.store, SelectorV::Name(n)) {
            Some(p) => SendersV::Node(p.nodeid),
            None => SendersV::Nobody,
        },
        None => SendersV::Any,
    }
}

/// The part of the inbox that passes the filters.
pub open spec fn wanted_inbox(
    s: StoreV,
    want: SendersV,
    channel: Option<Seq<char>>,
    since_ms: Option<u64>,
) -> Seq<MessageV> {
    match want {
        SendersV::Any => store::inbox(s, None, channel, since_ms),
        SendersV::Node(n) => store::inbox(s, Some(n), channel, since_ms),
        SendersV::Nobody => Seq::empty(),
    }
}

/// A message from a peer as it is shown.
pub open spec fn received(s: StoreV, m: MessageV) -> EventV {
    EventV::RecvMsg {
        from: m.sender,
        from_name: peering::name_of(s, m.sender),
        channel: m.channel,
        payload: m.payload,
        ts_ms: m.enqueued_at_ms,
    }
}

/// The answer to a subscription to the inbox.
pub open spec fn recv_reply(
    s: DaemonV,
    peer: Option<SelectorV>,
    channel: Option<Seq<char>>,
    since_ms: Option<u64>,
    follow: bool,
) -> ReplyV {
    let want = wanted_peer(s, peer);
    ReplyV {
        state: s,
        events: table::at_most(
            wanted_inbox(s.store, want, channel, since_ms),
            BACKLOG_LIMIT as int,
        ).map_values(|m: MessageV| received(s.store, m)).push(EventV::RecvBacklogEnd),
        next: if follow {
            NextV::FollowInbox { peer: want, channel }
        } else {
            NextV::Done
        },
    }
}

/// The model of an optional selector.
pub open spec fn opt_selector(p: Option<PeerSelector>) -> Option<SelectorV> {
    match p {
        Some(s) => Some(s@),
        None => None,
    }
}

// ===== the answers =====

/// Whether a listing with the given filter shows a peer.
pub fn filter_match(f: &PeerFilter, p: &PeerInfo) -> (r: bool)
    ensures
        r == filter_ok(*f, p@),
{
    match f {
        PeerFilter::All => true,
        PeerFilter::Remote => match p.source {
            PeerSource::Manual => true,
            PeerSource::Mdns => false,
        },
        PeerFilter::Local => match p.source {
            PeerSource::Manual => false,
            PeerSource::Mdns => true,
        },
        PeerFilter::Connected => match p.state {
            PeerState::Connected { .. } => true,
            _ => false,
        },
    }
}

fn info_of_claims(c: &CapabilityToken) -> (r: TokenInfo)
    ensures
        r@ == claims_info(c@),
{
    TokenInfo {
        id: c.id,
        iss: c.iss,
        sub: c.sub,
        exp: c.exp,
        caps: token::caps_copy(&c.caps),
        revoked: false,
    }
}

/// Adds an event to a list.
pub fn put_event(v: &mut Vec<IpcEvent>, e: IpcEvent)
    ensures
        ipc::events(final(v)@) == ipc::events(old(v)@).push(e@),
{
    v.push(e);
    assert(ipc::events(v@) =~= ipc::events(old(v)@).push(e@));
}

impl DaemonState {
    /// Answers with the local identifier and the version.
    pub fn status(&self) -> (r: Reply)
        ensures
            replied(self@, r) == answer(
                self@,
                EventV::StatusInfo {
                    nodeid: local_id(self@),
                    version: self@.version,
                    endpoint_bound: true,
                },
            ),
    {
        one(
            IpcEvent::StatusInfo {
                nodeid: self.identity.nodeid(),
                version: self.version.clone(),
                endpoint_bound: true,
            },
            Next::Done,
        )
    }

    /// Answers with the ticket of the encoded local address; `None` where it could not be encoded.
    pub fn ticket_reply(&self, address: Option<Vec<u8>>) -> (r: Reply)
        requires
            address matches Some(a) ==> a@.len() <= usize::MAX / 512,
        ensures
            replied(self@, r) == ticketed(self@, text::opt_bytes(address)),
    {
        match address {
            Some(a) => one(
                IpcEvent::TicketValue(ticket::encode_ticket(a.as_slice())),
                Next::Done,
            ),
            None => refusal(IpcErrorCode::Internal, "ticket CBOR encode failed"),
        }
    }

    /// Adds or renames a peer.
    pub fn peer_add(
        &mut self,
        nodeid: NodeId,
        name: &str,
        addr_blob: Option<Vec<u8>>,
        at: &Moment,
    ) -> (r: Reply)
        ensures
            replied(final(self)@, r) == peer_add_reply(
                old(self)@,
                nodeid@,
                name@,
                text::opt_bytes(addr_blob),
                at@.now_ms,
            ),
    {
        match self.store.peer_add_at(nodeid, name, addr_blob, at.now_ms) {
            Ok(()) => one(IpcEvent::Done, Next::Done),
            Err(e) => refusal(IpcErrorCode::Internal, e.explained().as_str()),
        }
    }

    /// Removes a peer.
    pub fn peer_rm(&mut self, selector: &PeerSelector) -> (r: Reply)
        ensures
            replied(final(self)@, r) == peer_rm_reply(old(self)@, selector@),
    {
        let sel = sel_to_bytes(selector);
        proof {
            table::lemma_filter_empty(self@.store.peers, queries::peer_selected(selector@));
            lemma_nothing_removed(self@.store.peers, queries::peer_selected(selector@));
        }
        let n = self.store.peer_remove(&sel);
        if n == 0 {
            refusal(IpcErrorCode::NotFound, "no such peer")
        } else {
            one(IpcEvent::Done, Next::Done)
        }
    }

    /// Lists the peers: those that are known, and those seen on the local network.
    pub fn peer_list(&self, filter: &PeerFilter) -> (r: Reply)
        ensures
            replied(self@, r) == peer_list_reply(self@, *filter),
    {
        let mut events: Vec<IpcEvent> = Vec::new();
        let peers = self.store.peer_list();
        let ghost ordered = table::rows(peers@);
        let ghost to_info = |p: PeerV| known_info(p, self@.conns);
        let ghost infos = ordered.map_values(to_info);
        let ghost keep = |i: PeerInfoV| filter_ok(*filter, i);
        let ghost item = |i: PeerInfoV| EventV::PeerListItem(i);
        let mut i: usize = 0;
        assert(infos.take(0).filter(keep).map_values(item) =~= Seq::empty()) by {
            reveal(Seq::filter);
        }
        assert(ipc::events(events@) =~= Seq::<EventV>::empty());
        while i < peers.len()
            invariant
                i <= peers.len(),
                ordered == table::rows(peers@),
                to_info == |p: PeerV| known_info(p, self@.conns),
                infos == ordered.map_values(to_info),
                keep == |i: PeerInfoV| filter_ok(*filter, i),
                item == |i: PeerInfoV| EventV::PeerListItem(i),
                ipc::events(events@) == infos.take(i as int).filter(keep).map_values(item),
            decreases peers.len() - i,
        {
            let p = &peers[i];
            assert(infos[i as int] == known_info(p@, self@.conns));
            let state = match self.conns.open_streams(&p.nodeid) {
                Some(n) => PeerState::Connected { open_streams: n as u32 },
                None => if p.last_seen_ms.is_some() {
                    PeerState::Idle
                } else {
                    PeerState::Offline
                },
            };
            let info = PeerInfo {
                nodeid: p.nodeid,
                name: p.name.clone(),
                source: PeerSource::Manual,
                state,
                last_seen_ms: p.last_seen_ms,
            };
            proof {
                table::lemma_filter_step(infos, keep, i as int);
            }
            if filter_match(filter, &info) {
                let ghost before = infos.take(i as int).filter(keep);
                assert(before.push(info@).map_values(item) =~= before.map_values(item).push(
                    EventV::PeerListItem(info@),
                ));
                put_event(&mut events, IpcEvent::PeerListItem(info));
            }
            i = i + 1;
        }
        assert(infos.take(i as int) =~= infos);
        let ghost known = ipc::events(events@);
        assert(known == known_items(self@, *filter));
        let shows_lan = match filter {
            PeerFilter::All => true,
            PeerFilter::Local => true,
            _ => false,
        };
        if shows_lan {
            let lan = self.lan.list();
            let ghost all = table::rows(lan@);
            let ghost only = lan_only(self@);
            let ghost shown = |l: LanV| EventV::PeerListItem(lan_info(l));
            let mut j: usize = 0;
            assert(all.take(0).filter(only).map_values(shown) =~= Seq::empty()) by {
                reveal(Seq::filter);
            }
            assert(known + Seq::<EventV>::empty() =~= known);
            while j < lan.len()
                invariant
                    j <= lan.len(),
                    all == table::rows(lan@),
                    only == lan_only(self@),
                    shown == |l: LanV| EventV::PeerListItem(lan_info(l)),
                    ipc::events(events@) == known + all.take(j as int).filter(only).map_values(
                        shown,
                    ),
                decreases lan.len() - j,
            {
                let l = &lan[j];
                proof {
                    table::lemma_filter_step(all, only, j as int);
                    table::lemma_filter_empty(
                        self@.store.peers,
                        queries::peer_selected(SelectorV::NodeId(l@.nodeid)),
                    );
                }
                if self.store.peer_get(&PeerSelectorBytes::NodeId(l.nodeid)).is_none() {
                    let info = PeerInfo {
                        nodeid: l.nodeid,
                        name: l.instance.clone(),
                        source: PeerSource::Mdns,
                        state: PeerState::Idle,
                        last_seen_ms: Some(l.last_seen_ms),
                    };
                    let ghost before = all.take(j as int).filter(only);
                    assert(before.push(l@).map_values(shown) =~= before.map_values(shown).push(
                        EventV::PeerListItem(info@),
                    ));
                    assert(known + before.map_values(shown).push(EventV::PeerListItem(info@)) =~= (
                    known + before.map_values(shown)).push(EventV::PeerListItem(info@)));
                    put_event(&mut events, IpcEvent::PeerListItem(info));
                }
                j = j + 1;
            }
            assert(all.take(j as int) =~= all);
        }
        assert(ipc::events(events@) =~= known_items(self@, *filter) + lan_items(self@, *filter));
        put_event(&mut events, IpcEvent::PeerListEnd);
        Reply { events, next: Next::Done }
    }

    /// Lists the connections.
    pub fn conn_list(&self) -> (r: Reply)
        ensures
            replied(self@, r) == conn_list_reply(self@),
    {
        let mut links = self.conns.list_conns();
        let ghost all = table::rows(links@);
        let mut events: Vec<IpcEvent> = Vec::new();
        let ghost n = links@.len();
        while links.len() > 0
            invariant
                all.len() == n,
                links@.len() + events@.len() == n,
                table::rows(links@) == all.skip(events@.len() as int),
                forall|j: int|
                    0 <= j < events@.len() ==> (#[trigger] events@[j])@ == EventV::ConnListItem(
                        all[j],
                    ),
            decreases links@.len(),
        {
            let ghost k = events@.len() as int;
            let ghost before = links@;
            assert(table::rows(before)[0] == all[k]);
            let c = links.remove(0);
            events.push(IpcEvent::ConnListItem(c));
            assert forall|i: int| 0 <= i < links@.len() implies #[trigger] table::rows(links@)[i]
                == all.skip(k + 1)[i] by {
                assert(table::rows(before)[i + 1] == all.skip(k)[i + 1]);
            }
            assert(table::rows(links@) =~= all.skip(k + 1));
        }
        assert(ipc::events(events@) =~= self@.conns.map_values(
            |l: LinkV| EventV::ConnListItem(conns::listed(l)),
        ));
        put_event(&mut events, IpcEvent::ConnListEnd);
        Reply { events, next: Next::Done }
    }

    /// Begins to grant a token to a peer.
    pub fn token_grant(
        &self,
        peer: &PeerSelector,
        caps: &Vec<Cap>,
        ttl_secs: Option<u64>,
        at: &Moment,
    ) -> (r: Reply)
        ensures
            replied(self@, r) == token_grant_reply(self@, peer@, caps@, ttl_secs, at@),
    {
        let row = match self.store.peer_get(&sel_to_bytes(peer)) {
            Some(p) => p,
            None => return refusal(IpcErrorCode::NotFound, "peer not found"),
        };
        let claims = auth::claims_at(
            self.identity.secret_key(),
            row.nodeid,
            token::caps_copy(caps),
            ttl_secs,
            at.now_secs,
            at.id,
        );
        later(Next::Encode(claims))
    }

    /// Signs encoded claims with the local key.
    pub fn sign_claims(&self, claims_cbor: Vec<u8>) -> (r: SignedToken)
        ensures
            r.claims_cbor@ == claims_cbor@,
            r.sig@ == crypto::ed25519_signature(self@.secret, claims_cbor@),
            r.sig@.len() == 64,
            crypto::signature_valid(local_id(self@), claims_cbor@, r.sig@),
    {
        auth::sign_token(self.identity.secret_key(), claims_cbor)
    }

    /// Ends a grant: keeps the encoded signed token and answers with it.
    pub fn granted(&mut self, claims: &CapabilityToken, raw: Vec<u8>) -> (r: Reply)
        ensures
            replied(final(self)@, r) == granted_reply(old(self)@, claims@, raw@),
    {
        let row = auth::token_row(claims, text::bytes_copy(raw.as_slice()));
        self.store.token_insert(&row);
        one(IpcEvent::TokenIssued { raw, info: info_of_claims(claims) }, Next::Done)
    }

    /// Refuses a token that could not be decoded.
    pub fn import_undecodable(&self, reason: &str) -> (r: Reply)
        ensures
            replied(self@, r) == undecodable_reply(self@, reason@),
    {
        let m = "decode signed token: ".to_owned().concat(reason);
        refusal(IpcErrorCode::BadRequest, m.as_str())
    }

    /// Ends an import: keeps a token that a known peer issued to the local node.
    pub fn import(
        &mut self,
        signed: &SignedToken,
        claims: Option<CapabilityToken>,
        raw: Vec<u8>,
    ) -> (r: Reply)
        ensures
            replied(final(self)@, r) == import_reply(
                old(self)@,
                *signed,
                auth::claims_view(claims),
                raw@,
            ),
    {
        let c = match auth::verify_signed_claims(signed, claims) {
            Ok(c) => c,
            Err(e) => {
                let m = "verify token signature: ".to_owned().concat(e.to_string().as_str());
                return refusal(IpcErrorCode::Unauthorized, m.as_str());
            },
        };
        if !c.sub.same(&self.identity.nodeid()) {
            return refusal(IpcErrorCode::BadRequest, "token subject is not this install");
        }
        if self.store.peer_get(&PeerSelectorBytes::NodeId(c.iss)).is_none() {
            return refusal(IpcErrorCode::BadRequest, "token issuer is not a known peer");
        }
        let row = auth::token_row(&c, raw);
        self.store.token_insert(&row);
        let mut r = one(IpcEvent::TokenListItem(info_of_claims(&c)), Next::Done);
        put_event(&mut r.events, IpcEvent::Done);
        assert(ipc::events(r.events@) =~= seq![
            EventV::TokenListItem(claims_info(c@)),
            EventV::Done,
        ]);
        r
    }

    /// Lists the tokens.
    pub fn token_list(&self) -> (r: Reply)
        ensures
            replied(self@, r) == token_list_reply(self@),
    {
        let rows = self.store.token_list();
        let mut events: Vec<IpcEvent> = Vec::new();
        let mut i: usize = 0;
        while i < rows.len()
            invariant
                i <= rows.len(),
                events@.len() == i,
                forall|j: int|
                    0 <= j < i ==> (#[trigger] events@[j])@ == EventV::TokenListItem(
                        token_info(rows@[j]@),
                    ),
            decreases rows.len() - i,
        {
            let t = &rows[i];
            events.push(
                IpcEvent::TokenListItem(
                    TokenInfo {
                        id: t.id,
                        iss: t.iss,
                        sub: t.sub,
                        exp: t.exp,
                        caps: token::caps_copy(&t.caps),
                        revoked: t.revoked,
                    },
                ),
            );
            i = i + 1;
        }
        assert(ipc::events(events@) =~= table::rows(rows@).map_values(
            |t: TokenV| EventV::TokenListItem(token_info(t)),
        ));
        put_event(&mut events, IpcEvent::TokenListEnd);
        Reply { events, next: Next::Done }
    }

    /// Revokes a token.
    pub fn token_revoke(&mut self, id: &TokenId) -> (r: Reply)
        ensures
            replied(final(self)@, r) == token_revoke_reply(old(self)@, id@),
    {
        proof {
            table::lemma_filter_empty(self@.store.tokens, queries::token_with_id(id@));
            lemma_nothing_changed(
                self@.store.tokens,
                queries::token_with_id(id@),
                queries::token_revoked(),
            );
        }
        let n = self.store.token_revoke(id);
        if n == 0 {
            refusal(IpcErrorCode::NotFound, "no such token")
        } else {
            one(IpcEvent::Done, Next::Done)
        }
    }

    /// Puts a message for a peer into the outbox.
    pub fn send(
        &mut self,
        peer: &PeerSelector,
        channel: &str,
        payload: &Vec<u8>,
        at: &Moment,
    ) -> (r: Reply)
        ensures
            replied(final(self)@, r) == send_reply(
                old(self)@,
                peer@,
                channel@,
                payload@,
                at@,
            ),
    {
        let row = match self.store.peer_get(&sel_to_bytes(peer)) {
            Some(p) => p,
            None => return refusal(IpcErrorCode::NotFound, "peer not found"),
        };
        let local = self.identity.nodeid();
        match self.store.outbox_enqueue_at(
            local,
            row.nodeid,
            channel,
            text::bytes_copy(payload.as_slice()),
            at.now_ms,
        ) {
            Ok(_) => one(IpcEvent::Done, Next::Wake(row.nodeid)),
            Err(e) => refusal(IpcErrorCode::Internal, e.to_string().as_str()),
        }
    }

    /// Shows the part of the inbox that passes the filters, and follows it where asked to.
    pub fn recv_subscribe(
        &self,
        peer: &Option<PeerSelector>,
        channel: &Option<String>,
        since_ms: Option<u64>,
        follow: bool,
    ) -> (r: Reply)
        ensures
            replied(self@, r) == recv_reply(
                self@,
                opt_selector(*peer),
                text::opt_text(*channel),
                since_ms,
                follow,
            ),
    {
        let want = match peer {
            Some(PeerSelector::NodeId(n)) => Senders::Node(*n),
            Some(PeerSelector::Name(n)) => match self.store.peer_get(
                &PeerSelectorBytes::Name(n.clone()),
            ) {
                Some(p) => Senders::Node(p.nodeid),
                None => Senders::Nobody,
            },
            None => Senders::Any,
        };
        let chan: Option<&str> = match channel {
            Some(c) => Some(c.as_str()),
            None => None,
        };
        let rows = match want {
            Senders::Any => self.store.inbox_backlog(None, chan, since_ms, BACKLOG_LIMIT),
            Senders::Node(n) => self.store.inbox_backlog(Some(n), chan, since_ms, BACKLOG_LIMIT),
            Senders::Nobody => Vec::new(),
        };
        assert(table::rows(rows@) =~= table::at_most(
            wanted_inbox(self@.store, want@, text::opt_text(*channel), since_ms),
            BACKLOG_LIMIT as int,
        ));
        let mut events: Vec<IpcEvent> = Vec::new();
        let mut i: usize = 0;
        while i < rows.len()
            invariant
                i <= rows.len(),
                events@.len() == i,
                forall|j: int|
                    0 <= j < i ==> (#[trigger] events@[j])@ == received(
                        self@.store,
                        rows@[j]@,
                    ),
            decreases rows.len() - i,
        {
            let m = &rows[i];
            let from_name = match self.store.peer_get(&PeerSelectorBytes::NodeId(m.sender)) {
                Some(p) => Some(p.name),
                None => None,
            };
            events.push(
                IpcEvent::RecvMsg {
                    from: m.sender,
                    from_name,
                    channel: m.channel.clone(),
                    payload: text::bytes_copy(m.payload.as_slice()),
                    ts_ms: m.enqueued_at_ms,
                },
            );
            i = i + 1;
        }
        assert(ipc::events(events@) =~= table::rows(rows@).map_values(
            |m: MessageV| received(self@.store, m),
        ));
        put_event(&mut events, IpcEvent::RecvBacklogEnd);
        let next = if follow {
            Next::FollowInbox { peer: want, channel: text::opt_text_copy(channel) }
        } else {
            Next::Done
        };
        Reply { events, next }
    }
}

proof fn lemma_nothing_removed<A>(s: Seq<A>, p: spec_fn(A) -> bool)
    ensures
        !table::any_of(s, p) ==> table::without(s, p) == s,
    decreases s.len(),
{
    if !table::any_of(s, p) {
        let keep = |a: A| !p(a);
        assert forall|i: int| 0 <= i < s.len() implies keep(#[trigger] s[i]) == (table::always())(
            s[i],
        ) by {}
        table::lemma_filter_same(s, keep, table::always());
        lemma_filter_all(s);
    }
}

proof fn lemma_filter_all<A>(s: Seq<A>)
    ensures
        s.filter(table::always()) == s,
    decreases s.len(),
{
    reveal(Seq::filter);
    if s.len() > 0 {
        lemma_filter_all(s.drop_last());
        assert(s.drop_last().push(s.last()) =~= s);
    }
}

proof fn lemma_nothing_changed<A>(s: Seq<A>, p: spec_fn(A) -> bool, f: spec_fn(A) -> A)
    ensures
        !table::any_of(s, p) ==> table::changed_where(s, p, f) == s,
{
    if !table::any_of(s, p) {
        assert(table::changed_where(s, p, f) =~= s);
    }
}

} // verus!
