//! The commands of the command line, and what each comes to.

use vstd::prelude::*;

use crate::auth;
use crate::cli;
use crate::cli::CliError;
use crate::cli::PeerReference;
use crate::cli::SendPlan;
use crate::cli::SpawnFlags;
use crate::codec;
use crate::display::Await;
use crate::display::Listing;
use crate::ipc::IpcRequest;
use crate::ipc::PeerFilter;
use crate::node::NodeIdParseError;
use crate::text;
use crate::ticket;
use crate::ticket::TicketError;

verus! {

/// A command with its arguments.
#[derive(Debug)]
pub enum Command {
    Init,
    Daemon,
    Nodeid,
    Ticket,
    Status,
    PeerAdd { id_or_ticket: String, name: String },
    PeerRm { peer: String },
    PeerList,
    Ls { remote: bool, local: bool, connected: bool, group: Option<String> },
    Conn,
    TokenGrant { peer: String, cap: Vec<String>, ttl: Option<String> },
    TokenImport { token: String },
    TokenList,
    TokenRevoke { id: String },
    Send {
        peer: Option<String>,
        message: Option<String>,
        channel: Option<String>,
        session: Option<String>,
        token: Option<String>,
        kind: String,
    },
    Recv {
        from: Option<String>,
        channel: Option<String>,
        follow: bool,
        since: Option<String>,
        session: Option<String>,
        token: Option<String>,
        all: bool,
    },
    Chat { peer: String, channel: String },
    /// A command on a remote node, which is not there yet.
    Exec,
    /// A shell on a remote node, which is not there yet.
    Shell,
    GroupNew { name: String },
    GroupLs,
    AgentLs { group: Option<String>, session: Option<String> },
    AgentKill { name: String, token: Option<String> },
    Whoami { token: Option<String> },
    Spawn { flags: SpawnFlags, group: Option<String>, token: Option<String> },
    SessionClose { name: String, discard: bool, token: Option<String> },
}

/// What a command finds around it: the environment variables that it heeds, and the time.
#[derive(Debug)]
pub struct Surroundings {
    /// `WT_TOKEN`.
    pub token: Option<String>,
    /// `WT_SESSION`.
    pub session: Option<String>,
    /// `WT_GROUP`.
    pub group: Option<String>,
    pub now_ms: u64,
}

/// What a command comes to.
#[derive(Debug)]
pub enum Plan {
    /// Make the install.
    Init,
    /// Run the daemon.
    Daemon,
    /// Ask the daemon for the identifier, or read it from the local key where there is no daemon.
    Nodeid,
    /// Make a request and wait for what it brings, under a heading where there is one.
    Ask { request: IpcRequest, awaits: Await, heading: Option<Listing> },
    /// Decode the address, and add the node it is of.
    AddAddress { address: Vec<u8>, name: String },
    /// Decode the token, encode it again, and import it.
    Import { raw: Vec<u8> },
    /// Send a message.
    Send(SendPlan),
    /// Follow a peer, and send what is typed.
    Chat { follow: IpcRequest },
    /// Say that the command is not there yet.
    NotYet(String),
}

/// A request without a heading.
pub open spec fn asks(r: Result<Plan, CliError>, awaited: Await) -> bool {
    r matches Ok(Plan::Ask { request, awaits, heading }) && awaits == awaited && heading is None
}

/// A request for a listing.
pub open spec fn lists(r: Result<Plan, CliError>, l: Listing) -> bool {
    r matches Ok(Plan::Ask { request, awaits, heading }) && awaits == Await::Listing(l) && heading
        == Some(l)
}

/// The request of a plan.
pub open spec fn request_of(r: Result<Plan, CliError>) -> IpcRequest {
    r->Ok_0->request
}

/// The request that a plan makes, or the error that stands in its place.
pub open spec fn asked(r: Result<Plan, CliError>) -> Result<IpcRequest, CliError> {
    match r {
        Ok(Plan::Ask { request, .. }) => Ok(request),
        Ok(_) => Ok(IpcRequest::Status),
        Err(e) => Err(e),
    }
}

/// The value of a flag, or of the variable that stands for it.
pub open spec fn given(flag: Option<String>, variable: Option<String>) -> Option<Seq<char>> {
    cli::first_nonempty(text::opt_text(flag), text::opt_text(variable))
}

/// Whether a peer is added as its reference asks for.
pub open spec fn add_planned(s: Seq<char>, name: Seq<char>, r: Result<Plan, CliError>) -> bool {
    let t = text::trimmed(s);
    if "wt1:"@.is_prefix_of(t) {
        match r {
            Ok(Plan::AddAddress { address, name: n }) => t == ticket::ticket_text(address@) && n@
                == name,
            Err(CliError::BadTicket(TicketError::Base32)) => forall|a: Seq<u8>|
                t != #[trigger] ticket::ticket_text(a),
            _ => false,
        }
    } else if t.len() == 64 && codec::is_hex(t) {
        &&& asks(r, Await::Ack)
        &&& request_of(r) matches IpcRequest::PeerAdd { nodeid, name: n, addr_blob } && Some(
            nodeid@,
        ) == codec::hex_bytes(t) && n@ == name && addr_blob is None
    } else {
        r matches Err(CliError::BadNodeId(e)) && e == if codec::is_hex(t) {
            NodeIdParseError::WrongLength((t.len() / 2) as usize)
        } else {
            NodeIdParseError::NotHex
        }
    }
}

/// Whether what a command comes to is what it asks for.
pub open spec fn planned(c: Command, around: Surroundings, r: Result<Plan, CliError>) -> bool {
    match c {
        Command::Init => r matches Ok(Plan::Init),
        Command::Daemon => r matches Ok(Plan::Daemon),
        Command::Nodeid => r matches Ok(Plan::Nodeid),
        Command::Ticket => asks(r, Await::Ticket) && request_of(r) is Ticket,
        Command::Status => asks(r, Await::Status) && request_of(r) is Status,
        Command::PeerAdd { id_or_ticket, name } => add_planned(id_or_ticket@, name@, r),
        Command::PeerRm { peer } => asks(r, Await::Ack) && (request_of(
            r,
        ) matches IpcRequest::PeerRm { selector } && selector@ == cli::selected(peer@)),
        Command::PeerList => lists(r, Listing::Peers) && request_of(r) == (IpcRequest::PeerList {
            filter: PeerFilter::All,
        }),
        Command::Ls { remote, local, connected, group } => match group {
            Some(g) => lists(r, Listing::Sessions) && request_of(r) == (IpcRequest::SessionList {
                group: g,
            }),
            None => lists(r, Listing::Peers) && request_of(r) == (IpcRequest::PeerList {
                filter: if connected {
                    PeerFilter::Connected
                } else if remote {
                    PeerFilter::Remote
                } else if local {
                    PeerFilter::Local
                } else {
                    PeerFilter::All
                },
            }),
        },
        Command::Conn => lists(r, Listing::Conns) && request_of(r) is ConnList,
        Command::TokenGrant { peer, cap, ttl } => {
            &&& cli::grant_asked(peer@, text::texts(cap@), text::opt_text(ttl), asked(r))
            &&& r is Ok ==> asks(r, Await::Token)
        },
        Command::TokenImport { token } => match r {
            Ok(Plan::Import { raw }) => codec::base32_text(raw@) == text::trimmed(token@),
            Err(CliError::TokenNotBase32(f)) => {
                &&& forall|raw: Seq<u8>| #[trigger]
                    codec::base32_text(raw) != text::trimmed(token@)
                &&& codec::is_base32_fault(text::utf8(text::trimmed(token@)), f)
            },
            _ => false,
        },
        Command::TokenList => lists(r, Listing::Tokens) && request_of(r) is TokenList,
        Command::TokenRevoke { id } => match r {
            Ok(_) => asks(r, Await::Ack) && (request_of(r) matches IpcRequest::TokenRevoke {
                id: i,
            } && codec::hex_bytes(id@) == Some(i@)),
            Err(CliError::TokenIdNotHex(f)) => codec::hex_bytes(id@) is None
                && codec::is_hex_fault(text::utf8(id@), f),
            Err(CliError::TokenIdLength) => codec::hex_bytes(id@) matches Some(b) && b.len() != 16,
            Err(_) => false,
        },
        Command::Send { peer, message, channel, session, token, kind } => {
            let plan = match r {
                Ok(Plan::Send(p)) => Ok(p),
                Ok(_) => Err(CliError::NoToken),
                Err(e) => Err(e),
            };
            cli::send_planned(
                text::opt_text(peer),
                text::opt_text(message),
                text::opt_text(channel),
                given(session, around.session),
                given(token, around.token),
                kind@,
                plan,
            )
        },
        Command::Recv { from, channel, follow, since, session, token, all } => {
            &&& cli::recv_asked(
                text::opt_text(from),
                text::opt_text(channel),
                follow,
                text::opt_text(since),
                given(session, around.session),
                given(token, around.token),
                all,
                around.now_ms,
                asked(r),
            )
            &&& r is Ok ==> asks(
                r,
                if given(token, around.token) is Some {
                    Await::BusMessages { follow }
                } else {
                    Await::Messages { follow }
                },
            )
        },
        Command::Chat { peer, channel } => r matches Ok(Plan::Chat { follow }) && cli::chat_asked(
            peer@,
            channel@,
            around.now_ms,
            follow,
        ),
        Command::Exec => r matches Ok(Plan::NotYet(m)) && m@
            == "`wt exec` is coming in v0.3 — not implemented yet."@,
        Command::Shell => r matches Ok(Plan::NotYet(m)) && m@
            == "`wt shell` is coming in v0.4 — not implemented yet."@,
        Command::GroupNew { name } => asks(r, Await::Group) && request_of(r)
            == (IpcRequest::GroupNew { name }),
        Command::GroupLs => lists(r, Listing::Groups) && request_of(r) is GroupList,
        Command::AgentLs { group, session } => lists(r, Listing::Agents) && (request_of(
            r,
        ) matches IpcRequest::AgentList { group: g, session: s } && text::opt_text(g) == given(
            group,
            around.group,
        ) && s == session),
        Command::AgentKill { name, token } => match given(token, around.token) {
            Some(t) => asks(r, Await::Ack) && (request_of(r) matches IpcRequest::AgentKill {
                token: u,
                agent,
            } && u@ == t && agent == name),
            None => r matches Err(CliError::NoToken),
        },
        Command::Whoami { token } => match given(token, around.token) {
            Some(t) => asks(r, Await::WhoAmI) && (request_of(r) matches IpcRequest::WhoAmI {
                token: u,
            } && u@ == t),
            None => r matches Err(CliError::NoToken),
        },
        Command::Spawn { flags, group, token } => {
            &&& cli::spawn_asked(
                flags,
                given(group, around.group),
                given(token, around.token),
                asked(r),
            )
            &&& r is Ok ==> asks(r, Await::Spawn)
        },
        Command::SessionClose { name, discard, token } => match given(token, around.token) {
            Some(t) => asks(r, Await::Ack) && (request_of(r) matches IpcRequest::SessionClose {
                token: u,
                session,
                discard: d,
            } && u@ == t && session == name && d == discard),
            None => r matches Err(CliError::NoToken),
        },
    }
}

fn ask(request: IpcRequest, awaits: Await) -> (r: Result<Plan, CliError>)
    ensures
        asks(r, awaits),
        request_of(r) == request,
        asked(r) == Ok::<IpcRequest, CliError>(request),
{
    Ok(Plan::Ask { request, awaits, heading: None })
}

fn list(request: IpcRequest, l: Listing) -> (r: Result<Plan, CliError>)
    ensures
        lists(r, l),
        request_of(r) == request,
{
    Ok(Plan::Ask { request, awaits: Await::Listing(l), heading: Some(l) })
}

fn plan_add(id_or_ticket: &str, name: String) -> (r: Result<Plan, CliError>)
    requires
        text::utf8(id_or_ticket@).len() <= usize::MAX / 8,
    ensures
        add_planned(id_or_ticket@, name@, r),
{
    match cli::peer_reference(id_or_ticket) {
        Ok(PeerReference::Address(address)) => Ok(Plan::AddAddress { address, name }),
        Ok(PeerReference::Node(nodeid)) => ask(
            IpcRequest::PeerAdd { nodeid, name, addr_blob: None },
            Await::Ack,
        ),
        Err(e) => Err(e),
    }
}

/// What a command comes to. The texts of tickets and tokens are bounded by what their decoder takes.
pub fn plan(c: Command, around: Surroundings) -> (r: Result<Plan, CliError>)
    requires
        c matches Command::PeerAdd { id_or_ticket, .. } ==> text::utf8(id_or_ticket@).len()
            <= usize::MAX / 8,
        c matches Command::TokenImport { token } ==> text::utf8(token@).len() <= usize::MAX / 8,
    ensures
        planned(c, around, r),
{
    match c {
        Command::Init => Ok(Plan::Init),
        Command::Daemon => Ok(Plan::Daemon),
        Command::Nodeid => Ok(Plan::Nodeid),
        Command::Ticket => ask(IpcRequest::Ticket, Await::Ticket),
        Command::Status => ask(IpcRequest::Status, Await::Status),
        Command::PeerAdd { id_or_ticket, name } => plan_add(id_or_ticket.as_str(), name),
        Command::PeerRm { peer } => ask(
            IpcRequest::PeerRm { selector: cli::peer_selector(peer.as_str()) },
            Await::Ack,
        ),
        Command::PeerList => list(
            IpcRequest::PeerList { filter: PeerFilter::All },
            Listing::Peers,
        ),
        Command::Ls { remote, local, connected, group } => match group {
            Some(group) => list(IpcRequest::SessionList { group }, Listing::Sessions),
            None => list(
                IpcRequest::PeerList { filter: cli::list_filter(remote, local, connected) },
                Listing::Peers,
            ),
        },
        Command::Conn => list(IpcRequest::ConnList, Listing::Conns),
        Command::TokenGrant { peer, cap, ttl } => match cli::grant_request(
            peer.as_str(),
            &cap,
            ttl,
        ) {
            Ok(request) => ask(request, Await::Token),
            Err(e) => Err(e),
        },
        Command::TokenImport { token } => match auth::token_decode_base32(token.as_str()) {
            Ok(raw) => Ok(Plan::Import { raw }),
            Err(f) => Err(CliError::TokenNotBase32(f)),
        },
        Command::TokenList => list(IpcRequest::TokenList, Listing::Tokens),
        Command::TokenRevoke { id } => match cli::parse_token_id(id.as_str()) {
            Ok(id) => ask(IpcRequest::TokenRevoke { id }, Await::Ack),
            Err(e) => Err(e),
        },
        Command::Send { peer, message, channel, session, token, kind } => match cli::plan_send(
            peer,
            message,
            channel,
            cli::env_or(session, around.session),
            cli::env_or(token, around.token),
            kind.as_str(),
        ) {
            Ok(p) => Ok(Plan::Send(p)),
            Err(e) => Err(e),
        },
        Command::Recv { from, channel, follow, since, session, token, all } => {
            let token = cli::env_or(token, around.token);
            let awaits = if token.is_some() {
                Await::BusMessages { follow }
            } else {
                Await::Messages { follow }
            };
            match cli::recv_request(
                from,
                channel,
                follow,
                since,
                cli::env_or(session, around.session),
                token,
                all,
                around.now_ms,
            ) {
                Ok(request) => ask(request, awaits),
                Err(e) => Err(e),
            }
        },
        Command::Chat { peer, channel } => Ok(
            Plan::Chat {
                follow: cli::chat_request(peer.as_str(), channel.as_str(), around.now_ms),
            },
        ),
        Command::Exec => Ok(
            Plan::NotYet("`wt exec` is coming in v0.3 — not implemented yet.".to_owned()),
        ),
        Command::Shell => Ok(
            Plan::NotYet("`wt shell` is coming in v0.4 — not implemented yet.".to_owned()),
        ),
        Command::GroupNew { name } => ask(IpcRequest::GroupNew { name }, Await::Group),
        Command::GroupLs => list(IpcRequest::GroupList, Listing::Groups),
        Command::AgentLs { group, session } => list(
            IpcRequest::AgentList { group: cli::env_or(group, around.group), session },
            Listing::Agents,
        ),
        Command::AgentKill { name, token } => match cli::require_token(token, around.token) {
            Ok(token) => ask(IpcRequest::AgentKill { token, agent: name }, Await::Ack),
            Err(e) => Err(e),
        },
        Command::Whoami { token } => match cli::require_token(token, around.token) {
            Ok(token) => ask(IpcRequest::WhoAmI { token }, Await::WhoAmI),
            Err(e) => Err(e),
        },
        Command::Spawn { flags, group, token } => match cli::spawn_request(
            flags,
            cli::env_or(group, around.group),
            cli::env_or(token, around.token),
        ) {
            Ok(request) => ask(request, Await::Spawn),
            Err(e) => Err(e),
        },
        Command::SessionClose { name, discard, token } => match cli::require_token(
            token,
            around.token,
        ) {
            Ok(token) => ask(
                IpcRequest::SessionClose { token, session: name, discard },
                Await::Ack,
            ),
            Err(e) => Err(e),
        },
    }
}

} // verus!
