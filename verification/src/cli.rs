//! The command line: what the flags of a command ask of the daemon.

use vstd::prelude::*;

use crate::bus;
use crate::clock;
use crate::codec;
use crate::codec::Base32Fault;
use crate::codec::HexFault;
use crate::daemon;
use crate::ipc::AgentMsgKind;
use crate::ipc::FsMode;
use crate::ipc::IpcErrorCode;
use crate::ipc::IpcRequest;
use crate::ipc::PeerFilter;
use crate::ipc::PeerSelector;
use crate::ipc::SelectorV;
use crate::node;
use crate::node::NodeId;
use crate::node::NodeIdParseError;
use crate::text;
use crate::ticket;
use crate::ticket::TicketError;
use crate::token::Cap;
use crate::token::TokenId;

verus! {

/// Why a command cannot be carried out as it was given.
#[derive(Debug, Clone)]
pub enum CliError {
    /// A duration of nothing.
    EmptyDuration,
    /// A duration whose number is none.
    BadDurationNumber(String),
    /// A duration in a unit that is not known.
    UnknownUnit(String),
    /// A duration beyond 64 bits of seconds.
    DurationTooLarge,
    /// Both ways to provision a workspace were asked for.
    BothModes,
    /// A kind of message that is not known.
    UnknownKind(String),
    /// No bearer token was given.
    NoToken,
    /// No group was given.
    NoGroup,
    /// No peer was given.
    NoPeer,
    /// A token identifier that is not hexadecimal.
    TokenIdNotHex(HexFault),
    /// A token identifier of another length than sixteen bytes.
    TokenIdLength,
    /// A token that is not base32.
    TokenNotBase32(Base32Fault),
    /// A capability that is not known; in words.
    UnknownCap(String),
    /// A node identifier that cannot be read.
    BadNodeId(NodeIdParseError),
    /// A ticket that cannot be read.
    BadTicket(TicketError),
}

/// An error in words.
pub open spec fn error_text(e: CliError) -> Seq<char> {
    match e {
        CliError::EmptyDuration => "empty duration"@,
        CliError::BadDurationNumber(_) => "bad duration number"@,
        CliError::UnknownUnit(u) => "unknown duration unit: "@ + u@,
        CliError::DurationTooLarge => "duration is too large"@,
        CliError::BothModes => "--worktree and --new are mutually exclusive"@,
        CliError::UnknownKind(k) => "unknown message kind '"@ + k@
            + "' (user|turn_input|turn_output|control|trace)"@,
        CliError::NoToken => "no wt token — pass --token or set WT_TOKEN"@,
        CliError::NoGroup => "--group or WT_GROUP required for spawn"@,
        CliError::NoPeer => "peer required (or use --session + WT_TOKEN for the agent bus)"@,
        CliError::TokenIdNotHex(f) => "token id is not hex: "@ + codec::hex_fault_text(
            f,
            codec::shown_character(f),
        ),
        CliError::TokenIdLength => "token id must be 16 bytes (32 hex chars)"@,
        CliError::TokenNotBase32(f) => "token is not valid base32 (no padding): "@
            + codec::base32_fault_text(f),
        CliError::UnknownCap(m) => m@,
        CliError::BadNodeId(e) => "parse NodeId hex (or pass a wt1:… ticket): "@
            + node::node_error_text(e),
        CliError::BadTicket(e) => "decode ticket: "@ + ticket_error_text(e),
    }
}

/// A ticket error in words.
pub open spec fn ticket_error_text(e: TicketError) -> Seq<char> {
    match e {
        TicketError::WrongPrefix => "ticket missing `wt1:` prefix"@,
        TicketError::Base32 => "ticket body is not valid base32"@,
        TicketError::Decode => "ticket CBOR decode failed"@,
        TicketError::Encode => "ticket CBOR encode failed"@,
    }
}

impl CliError {
    /// The error in words. What lies behind an unreadable number is left to be added.
    pub fn to_string(&self) -> (r: String)
        ensures
            r@ == error_text(*self),
    {
        match self {
            CliError::EmptyDuration => "empty duration".to_owned(),
            CliError::BadDurationNumber(_) => "bad duration number".to_owned(),
            CliError::UnknownUnit(u) => "unknown duration unit: ".to_owned().concat(u.as_str()),
            CliError::DurationTooLarge => "duration is too large".to_owned(),
            CliError::BothModes => "--worktree and --new are mutually exclusive".to_owned(),
            CliError::UnknownKind(k) => "unknown message kind '".to_owned().concat(
                k.as_str(),
            ).concat("' (user|turn_input|turn_output|control|trace)"),
            CliError::NoToken => "no wt token — pass --token or set WT_TOKEN".to_owned(),
            CliError::NoGroup => "--group or WT_GROUP required for spawn".to_owned(),
            CliError::NoPeer =>
                "peer required (or use --session + WT_TOKEN for the agent bus)".to_owned(),
            CliError::TokenIdNotHex(f) => "token id is not hex: ".to_owned().concat(
                f.to_string().as_str(),
            ),
            CliError::TokenIdLength => "token id must be 16 bytes (32 hex chars)".to_owned(),
            CliError::TokenNotBase32(f) =>
                "token is not valid base32 (no padding): ".to_owned().concat(
                f.to_string().as_str(),
            ),
            CliError::UnknownCap(m) => m.clone(),
            CliError::BadNodeId(e) =>
                "parse NodeId hex (or pass a wt1:… ticket): ".to_owned().concat(
                e.to_string().as_str(),
            ),
            CliError::BadTicket(e) => "decode ticket: ".to_owned().concat(e.to_string().as_str()),
        }
    }
}

/// The exit code that tells how a process failed.
pub open spec fn exit_code(code: IpcErrorCode) -> i32 {
    match code {
        IpcErrorCode::Internal => 1,
        IpcErrorCode::BadRequest => 2,
        IpcErrorCode::Unauthorized => 3,
        IpcErrorCode::Expired => 3,
        IpcErrorCode::Revoked => 3,
        IpcErrorCode::PeerNotKnown => 3,
        IpcErrorCode::NotFound => 4,
        IpcErrorCode::Unimplemented => 5,
    }
}

/// The exit code of a process that failed in the given way. It is never that of success.
pub fn exit_code_for(code: IpcErrorCode) -> (r: i32)
    ensures
        r == exit_code(code),
        r != 0,
{
    match code {
        IpcErrorCode::Unauthorized => 3,
        IpcErrorCode::Expired => 3,
        IpcErrorCode::Revoked => 3,
        IpcErrorCode::PeerNotKnown => 3,
        IpcErrorCode::NotFound => 4,
        IpcErrorCode::BadRequest => 2,
        IpcErrorCode::Unimplemented => 5,
        IpcErrorCode::Internal => 1,
    }
}

// ----- durations -----

/// How many seconds a unit of time has.
pub open spec fn unit_secs(unit: char) -> Option<nat> {
    if unit == 's' {
        Some(1)
    } else if unit == 'm' {
        Some(60)
    } else if unit == 'h' {
        Some(3600)
    } else if unit == 'd' {
        Some(86400)
    } else {
        None
    }
}

/// The seconds that a text such as `5m` stands for.
pub open spec fn duration_secs(s: Seq<char>) -> Option<u64> {
    let t = text::trimmed(s);
    if t.len() == 0 {
        None
    } else {
        match (text::parsed_u64(t.drop_last()), unit_secs(t.last())) {
            (Some(n), Some(u)) => if n * u <= u64::MAX {
                Some((n * u) as u64)
            } else {
                None
            },
            _ => None,
        }
    }
}

/// Whether an error says what is wrong with a text as a duration. What comes first is reported: an
/// empty text, the number, the unit, the size.
pub open spec fn duration_fault(s: Seq<char>, e: CliError) -> bool {
    let t = text::trimmed(s);
    if t.len() == 0 {
        e is EmptyDuration
    } else if text::parsed_u64(t.drop_last()) is None {
        e matches CliError::BadDurationNumber(n) && n@ == t.drop_last()
    } else if unit_secs(t.last()) is None {
        e matches CliError::UnknownUnit(u) && u@ == seq![t.last()]
    } else {
        e is DurationTooLarge
    }
}

/// Reads a duration: a number and one of the units `s`, `m`, `h` and `d`.
pub fn parse_duration(s: &str) -> (r: Result<u64, CliError>)
    ensures
        match r {
            Ok(n) => duration_secs(s@) == Some(n),
            Err(e) => duration_secs(s@) is None && duration_fault(s@, e),
        },
{
    let t = text::trim(s);
    let n = t.unicode_len();
    if n == 0 {
        return Err(CliError::EmptyDuration);
    }
    let num = t.substring_char(0, n - 1);
    let unit = t.get_char(n - 1);
    assert(num@ =~= t@.drop_last());
    assert(unit == t@.last());
    let count: u64 = match text::parse_u64(num) {
        Some(c) => c,
        None => return Err(CliError::BadDurationNumber(num.to_owned())),
    };
    let factor: u64 = if unit == 's' {
        1
    } else if unit == 'm' {
        60
    } else if unit == 'h' {
        3600
    } else if unit == 'd' {
        86400
    } else {
        let mut u = String::new();
        u.push(unit);
        assert(u@ =~= seq![unit]);
        return Err(CliError::UnknownUnit(u));
    };
    match count.checked_mul(factor) {
        Some(secs) => Ok(secs),
        None => Err(CliError::DurationTooLarge),
    }
}

/// A whole number of units is read as so many seconds, whatever white space stands around it.
pub proof fn law_duration_is_read(n: u64, unit: char)
    requires
        unit_secs(unit) is Some,
        n * unit_secs(unit)->0 <= u64::MAX,
    ensures
        duration_secs(text::decimal_text(n as nat).push(unit)) == Some(
            (n * unit_secs(unit)->0) as u64,
        ),
{
    let num = text::decimal_text(n as nat);
    let t = num.push(unit);
    text::law_decimal_roundtrip(n as nat);
    assert(text::is_digit(num[0]));
    assert(t[0] == num[0]);
    assert(Seq::<char>::empty() + t + Seq::<char>::empty() =~= t);
    text::law_trim_removes_padding(Seq::empty(), t, Seq::empty());
    assert(t.drop_last() =~= num);
}

/// The moment so many seconds before `now_ms`, but none before the epoch.
pub open spec fn moment_before(now_ms: u64, secs: u64) -> u64 {
    if secs * 1000 >= now_ms {
        0
    } else {
        (now_ms - secs * 1000) as u64
    }
}

/// The moment that a duration reaches back to.
pub fn since_at(since: Option<&str>, now_ms: u64) -> (r: Result<Option<u64>, CliError>)
    ensures
        match r {
            Ok(None) => since is None,
            Ok(Some(t)) => {
                &&& since is Some
                &&& duration_secs(since->0@) matches Some(n) && t == moment_before(now_ms, n)
            },
            Err(e) => since is Some && duration_secs(since->0@) is None && duration_fault(
                since->0@,
                e,
            ),
        },
{
    match since {
        None => Ok(None),
        Some(s) => match parse_duration(s) {
            Ok(secs) => {
                let back: u64 = match secs.checked_mul(1000) {
                    Some(b) => b,
                    None => u64::MAX,
                };
                if back >= now_ms {
                    Ok(Some(0))
                } else {
                    Ok(Some(now_ms - back))
                }
            },
            Err(e) => Err(e),
        },
    }
}

/// The moment that a duration reaches back to from now.
pub fn since_to_ms(since: Option<&str>) -> (r: Result<Option<u64>, CliError>)
    ensures
        match r {
            Ok(None) => since is None,
            Ok(Some(t)) => {
                &&& since is Some
                &&& duration_secs(since->0@) is Some
                &&& exists|now_ms: u64|
                    t == #[trigger] moment_before(now_ms, duration_secs(since->0@)->0)
            },
            Err(e) => since is Some && duration_secs(since->0@) is None && duration_fault(
                since->0@,
                e,
            ),
        },
{
    since_at(since, clock::unix_ms())
}

/// How long ago a moment was, in words: in seconds below a minute, in minutes below an hour, else in
/// hours.
pub open spec fn ago_text(ms: u64, now_ms: u64) -> Seq<char> {
    let delta: int = if now_ms > ms {
        now_ms - ms
    } else {
        0
    };
    if delta < 1000 {
        "now"@
    } else if delta < 60_000 {
        text::decimal_text((delta / 1000) as nat) + "s ago"@
    } else if delta < 3_600_000 {
        text::decimal_text((delta / 60_000) as nat) + "m ago"@
    } else {
        text::decimal_text((delta / 3_600_000) as nat) + "h ago"@
    }
}

/// How long before `now_ms` a moment was, in words.
pub fn ago_at(ms: u64, now_ms: u64) -> (r: String)
    ensures
        r@ == ago_text(ms, now_ms),
{
    let delta: u64 = if now_ms > ms {
        now_ms - ms
    } else {
        0
    };
    if delta < 1000 {
        "now".to_owned()
    } else if delta < 60_000 {
        text::u64_text(delta / 1000).concat("s ago")
    } else if delta < 3_600_000 {
        text::u64_text(delta / 60_000).concat("m ago")
    } else {
        text::u64_text(delta / 3_600_000).concat("h ago")
    }
}

/// How long ago a moment was, in words.
pub fn ago(ms: u64) -> (r: String)
    ensures
        exists|now_ms: u64| r@ == #[trigger] ago_text(ms, now_ms),
{
    let now_ms = clock::unix_ms();
    ago_at(ms, now_ms)
}

// ----- arguments -----

/// The value of a flag, or of an environment variable: the first that is given and not empty.
pub open spec fn first_nonempty(
    flag: Option<Seq<char>>,
    variable: Option<Seq<char>>,
) -> Option<Seq<char>> {
    if flag is Some && flag->0.len() > 0 {
        flag
    } else if variable is Some && variable->0.len() > 0 {
        variable
    } else {
        None
    }
}

/// The value of a flag, or of an environment variable.
pub fn env_or(flag: Option<String>, variable: Option<String>) -> (r: Option<String>)
    ensures
        text::opt_text(r) == first_nonempty(text::opt_text(flag), text::opt_text(variable)),
{
    if let Some(f) = flag {
        if f.as_str().unicode_len() > 0 {
            return Some(f);
        }
    }
    if let Some(v) = variable {
        if v.as_str().unicode_len() > 0 {
            return Some(v);
        }
    }
    None
}

/// The bearer token out of a flag or the environment.
pub fn require_token(flag: Option<String>, variable: Option<String>) -> (r: Result<String, CliError>)
    ensures
        match r {
            Ok(t) => first_nonempty(text::opt_text(flag), text::opt_text(variable)) == Some(t@),
            Err(e) => {
                &&& first_nonempty(text::opt_text(flag), text::opt_text(variable)) is None
                &&& e is NoToken
            },
        },
{
    match env_or(flag, variable) {
        Some(t) => Ok(t),
        None => Err(CliError::NoToken),
    }
}

/// What a text selects a peer by: its identifier where the text is one, else its name.
pub open spec fn selected(s: Seq<char>) -> SelectorV {
    if s.len() == 64 && codec::is_hex(s) {
        SelectorV::NodeId(codec::hex_bytes(s)->0)
    } else {
        SelectorV::Name(s)
    }
}

/// Reads how a peer is referred to.
pub fn peer_selector(s: &str) -> (r: PeerSelector)
    ensures
        r@ == selected(s@),
{
    match NodeId::parse(s) {
        Ok(n) => PeerSelector::NodeId(n),
        Err(_) => PeerSelector::Name(s.to_owned()),
    }
}

/// The text of an identifier selects the node with that identifier.
pub proof fn law_identifier_selects_its_node(id: Seq<u8>)
    requires
        id.len() == 32,
    ensures
        selected(codec::hex_text(id)) == SelectorV::NodeId(id),
{
    codec::law_hex_roundtrip(id);
}

/// How a peer is added.
#[derive(Debug)]
pub enum PeerReference {
    /// By its identifier alone.
    Node(NodeId),
    /// By the encoded address out of its ticket.
    Address(Vec<u8>),
}

/// Reads a node identifier or a ticket, with white space around it or not.
pub fn peer_reference(s: &str) -> (r: Result<PeerReference, CliError>)
    requires
        text::utf8(s@).len() <= usize::MAX / 8,
    ensures
        ({
            let t = text::trimmed(s@);
            if "wt1:"@.is_prefix_of(t) {
                match r {
                    Ok(PeerReference::Address(a)) => t == ticket::ticket_text(a@),
                    Err(CliError::BadTicket(TicketError::Base32)) => forall|a: Seq<u8>|
                        t != #[trigger] ticket::ticket_text(a),
                    _ => false,
                }
            } else {
                match r {
                    Ok(PeerReference::Node(n)) => t.len() == 64 && Some(n@) == codec::hex_bytes(t),
                    Err(CliError::BadNodeId(e)) => if codec::is_hex(t) {
                        t.len() != 64 && e == NodeIdParseError::WrongLength((t.len() / 2) as usize)
                    } else {
                        e is NotHex
                    },
                    _ => false,
                }
            }
        }),
{
    match ticket::decode_ticket(s) {
        Ok(a) => {
            proof {
                reveal_strlit("wt1:");
            }
            assert("wt1:"@.is_prefix_of(ticket::ticket_text(a@))) by {
                assert(ticket::ticket_text(a@).take(4) =~= "wt1:"@);
            }
            Ok(PeerReference::Address(a))
        },
        Err(TicketError::WrongPrefix) => match NodeId::parse(text::trim(s)) {
            Ok(n) => Ok(PeerReference::Node(n)),
            Err(e) => Err(CliError::BadNodeId(e)),
        },
        Err(e) => Err(CliError::BadTicket(e)),
    }
}

/// Reads a token identifier in hexadecimal.
pub fn parse_token_id(s: &str) -> (r: Result<TokenId, CliError>)
    ensures
        match r {
            Ok(id) => codec::hex_bytes(s@) == Some(id@),
            Err(CliError::TokenIdNotHex(f)) => codec::hex_bytes(s@) is None
                && codec::is_hex_fault(text::utf8(s@), f),
            Err(CliError::TokenIdLength) => codec::hex_bytes(s@) matches Some(b) && b.len() != 16,
            Err(_) => false,
        },
{
    match codec::hex_decode(s) {
        Err(f) => Err(CliError::TokenIdNotHex(f)),
        Ok(b) => if b.len() != 16 {
            Err(CliError::TokenIdLength)
        } else {
            assert(b@.take(16) =~= b@);
            Ok(node::fixed(b.as_slice()))
        },
    }
}

/// Whether a text names a kind of message.
pub open spec fn is_kind(s: Seq<char>) -> bool {
    exists|k: AgentMsgKind| #[trigger] bus::kind_name(k) == s
}

/// Reads a kind of message.
pub fn parse_agent_kind(s: &str) -> (r: Result<AgentMsgKind, CliError>)
    ensures
        match r {
            Ok(k) => bus::kind_name(k) == s@,
            Err(e) => !is_kind(s@) && (e matches CliError::UnknownKind(t) && t@ == s@),
        },
{
    if text::str_eq(s, "user") {
        Ok(AgentMsgKind::User)
    } else if text::str_eq(s, "turn_input") {
        Ok(AgentMsgKind::TurnInput)
    } else if text::str_eq(s, "turn_output") {
        Ok(AgentMsgKind::TurnOutput)
    } else if text::str_eq(s, "control") {
        Ok(AgentMsgKind::Control)
    } else if text::str_eq(s, "trace") {
        Ok(AgentMsgKind::Trace)
    } else {
        Err(CliError::UnknownKind(s.to_owned()))
    }
}

/// The name of a kind of message.
pub fn agent_kind_str(k: AgentMsgKind) -> (r: &'static str)
    ensures
        r@ == bus::kind_name(k),
{
    bus::kind_to_str(k)
}

/// How a workspace is provisioned: as asked for, else as a worktree where the base directory is in a
/// git repository.
pub fn resolve_fs_mode(worktree: bool, new: bool, base_is_repository: bool) -> (r: Result<
    FsMode,
    CliError,
>)
    ensures
        match r {
            Ok(m) => {
                &&& !(worktree && new)
                &&& m == if worktree || (!new && base_is_repository) {
                    FsMode::Worktree
                } else {
                    FsMode::New
                }
            },
            Err(e) => worktree && new && e is BothModes,
        },
{
    if worktree && new {
        Err(CliError::BothModes)
    } else if worktree || (!new && base_is_repository) {
        Ok(FsMode::Worktree)
    } else {
        Ok(FsMode::New)
    }
}

/// Which peers a listing is for.
pub fn list_filter(remote: bool, local: bool, connected: bool) -> (r: PeerFilter)
    ensures
        r == if connected {
            PeerFilter::Connected
        } else if remote {
            PeerFilter::Remote
        } else if local {
            PeerFilter::Local
        } else {
            PeerFilter::All
        },
{
    if connected {
        PeerFilter::Connected
    } else if remote {
        PeerFilter::Remote
    } else if local {
        PeerFilter::Local
    } else {
        PeerFilter::All
    }
}

// ----- requests -----

/// Where a message is sent to. A body that is not given is read from the standard input.
#[derive(Debug)]
pub enum SendPlan {
    /// Onto the agent bus.
    Agent { token: String, session: String, kind: AgentMsgKind, body: Option<String> },
    /// To a peer.
    Peer { peer: PeerSelector, channel: String, body: Option<String> },
}

/// Whether a plan is the right one for a message: onto the bus where both a session and a bearer
/// token are given, else to a peer.
pub open spec fn send_planned(
    peer: Option<Seq<char>>,
    message: Option<Seq<char>>,
    channel: Option<Seq<char>>,
    session: Option<Seq<char>>,
    token: Option<Seq<char>>,
    kind: Seq<char>,
    r: Result<SendPlan, CliError>,
) -> bool {
    if session is Some && token is Some {
        match r {
            Ok(SendPlan::Agent { token: t, session: s, kind: k, body }) => {
                &&& Some(t@) == token
                &&& Some(s@) == session
                &&& bus::kind_name(k) == kind
                &&& text::opt_text(body) == if message is Some {
                    message
                } else {
                    peer
                }
            },
            Err(CliError::UnknownKind(k)) => !is_kind(kind) && k@ == kind,
            _ => false,
        }
    } else {
        match r {
            Ok(SendPlan::Peer { peer: p, channel: c, body }) => {
                &&& peer is Some
                &&& p@ == selected(peer->0)
                &&& c@ == if channel is Some {
                    channel->0
                } else {
                    "default"@
                }
                &&& text::opt_text(body) == message
            },
            Err(CliError::NoPeer) => peer is None,
            _ => false,
        }
    }
}

/// Decides where a message is sent to.
pub fn plan_send(
    peer: Option<String>,
    message: Option<String>,
    channel: Option<String>,
    session: Option<String>,
    token: Option<String>,
    kind: &str,
) -> (r: Result<SendPlan, CliError>)
    ensures
        send_planned(
            text::opt_text(peer),
            text::opt_text(message),
            text::opt_text(channel),
            text::opt_text(session),
            text::opt_text(token),
            kind@,
            r,
        ),
{
    match (session, token) {
        (Some(session), Some(token)) => {
            let body = match message {
                Some(m) => Some(m),
                None => peer,
            };
            match parse_agent_kind(kind) {
                Ok(kind) => Ok(SendPlan::Agent { token, session, kind, body }),
                Err(e) => Err(e),
            }
        },
        _ => match peer {
            None => Err(CliError::NoPeer),
            Some(p) => Ok(
                SendPlan::Peer {
                    peer: peer_selector(p.as_str()),
                    channel: match channel {
                        Some(c) => c,
                        None => "default".to_owned(),
                    },
                    body: message,
                },
            ),
        },
    }
}

/// The request that a plan comes to with the given body.
pub open spec fn request_sent(plan: SendPlan, payload: Vec<u8>) -> IpcRequest {
    match plan {
        SendPlan::Agent { token, session, kind, body } => IpcRequest::AgentSend {
            token,
            session,
            kind,
            payload,
        },
        SendPlan::Peer { peer, channel, body } => IpcRequest::Send { peer, channel, payload },
    }
}

/// The request that sends a message with the given body.
pub fn send_request(plan: SendPlan, payload: Vec<u8>) -> (r: IpcRequest)
    ensures
        r == request_sent(plan, payload),
{
    match plan {
        SendPlan::Agent { token, session, kind, body: _ } => IpcRequest::AgentSend {
            token,
            session,
            kind,
            payload,
        },
        SendPlan::Peer { peer, channel, body: _ } => IpcRequest::Send { peer, channel, payload },
    }
}

/// Whether the moment that a request reaches back to is the one that a duration asks for.
pub open spec fn reaches_back(since: Option<Seq<char>>, now_ms: u64, since_ms: Option<u64>) -> bool {
    match since {
        None => since_ms is None,
        Some(d) => duration_secs(d) is Some && since_ms == Some(
            moment_before(now_ms, duration_secs(d)->0),
        ),
    }
}

/// Whether a request is the right one to receive messages: from the bus where a bearer token is
/// given, else from peers. A reader of the bus consumes unless it asks for the history or for a
/// stretch of time.
pub open spec fn recv_asked(
    from: Option<Seq<char>>,
    channel: Option<Seq<char>>,
    follow: bool,
    since: Option<Seq<char>>,
    session: Option<Seq<char>>,
    token: Option<Seq<char>>,
    all: bool,
    now_ms: u64,
    r: Result<IpcRequest, CliError>,
) -> bool {
    match r {
        Ok(IpcRequest::AgentRecv { token: t, session: s, since_ms, follow: f, consume }) => {
            &&& Some(t@) == token
            &&& text::opt_text(s) == session
            &&& f == follow
            &&& consume == (!all && since is None)
            &&& reaches_back(since, now_ms, since_ms)
        },
        Ok(IpcRequest::RecvSubscribe { peer, channel: c, since_ms, follow: f }) => {
            &&& token is None
            &&& daemon::opt_selector(peer) == match from {
                Some(p) => Some(selected(p)),
                None => None,
            }
            &&& text::opt_text(c) == channel
            &&& f == follow
            &&& reaches_back(since, now_ms, since_ms)
        },
        Ok(_) => false,
        Err(e) => since is Some && duration_secs(since->0) is None && duration_fault(since->0, e),
    }
}

/// The request that receives messages.
pub fn recv_request(
    from: Option<String>,
    channel: Option<String>,
    follow: bool,
    since: Option<String>,
    session: Option<String>,
    token: Option<String>,
    all: bool,
    now_ms: u64,
) -> (r: Result<IpcRequest, CliError>)
    ensures
        recv_asked(
            text::opt_text(from),
            text::opt_text(channel),
            follow,
            text::opt_text(since),
            text::opt_text(session),
            text::opt_text(token),
            all,
            now_ms,
            r,
        ),
{
    let consume = !all && since.is_none();
    let reach: Option<&str> = match &since {
        Some(s) => Some(s.as_str()),
        None => None,
    };
    let since_ms: Option<u64> = match since_at(reach, now_ms) {
        Ok(t) => t,
        Err(e) => return Err(e),
    };
    match token {
        Some(token) => Ok(IpcRequest::AgentRecv { token, session, since_ms, follow, consume }),
        None => {
            let peer = match &from {
                Some(p) => Some(peer_selector(p.as_str())),
                None => None,
            };
            Ok(IpcRequest::RecvSubscribe { peer, channel, since_ms, follow })
        },
    }
}

/// Whether a request follows a peer on a channel from the given moment on.
pub open spec fn chat_asked(peer: Seq<char>, channel: Seq<char>, now_ms: u64, r: IpcRequest) -> bool {
    r matches IpcRequest::RecvSubscribe { peer: p, channel: c, since_ms, follow } && {
        &&& daemon::opt_selector(p) == Some(selected(peer))
        &&& text::opt_text(c) == Some(channel)
        &&& since_ms == Some(now_ms)
        &&& follow
    }
}

/// The request by which a chat follows a peer: only what arrives from now on.
pub fn chat_request(peer: &str, channel: &str, now_ms: u64) -> (r: IpcRequest)
    ensures
        chat_asked(peer@, channel@, now_ms, r),
{
    IpcRequest::RecvSubscribe {
        peer: Some(peer_selector(peer)),
        channel: Some(channel.to_owned()),
        since_ms: Some(now_ms),
        follow: true,
    }
}

/// `s` without the line ends at its end.
pub open spec fn without_line_ends(s: Seq<char>) -> Seq<char>
    decreases s.len(),
{
    if s.len() > 0 && s.last() == '\n' {
        without_line_ends(s.drop_last())
    } else {
        s
    }
}

/// What a line that was typed in a chat sends.
pub fn chat_payload(line: &str) -> (r: Vec<u8>)
    ensures
        r@ == text::utf8(without_line_ends(line@)),
{
    let v = text::chars_of(line);
    let mut to: usize = v.len();
    assert(v@.take(to as int) =~= v@);
    while to > 0 && v[to - 1] == '\n'
        invariant
            to <= v.len(),
            without_line_ends(v@.take(to as int)) == without_line_ends(v@),
        decreases to,
    {
        assert(v@.take(to as int).drop_last() =~= v@.take(to - 1));
        to = to - 1;
    }
    assert(without_line_ends(v@) == v@.take(to as int));
    let body = line.substring_char(0, to);
    assert(body@ =~= v@.take(to as int));
    text::bytes_copy(body.as_bytes())
}

/// The capabilities that the texts name, if every one names one.
pub open spec fn caps_named(v: Seq<Seq<char>>) -> Option<Seq<Cap>> {
    if forall|i: int| 0 <= i < v.len() ==> #[trigger] v[i] == "msg"@ {
        Some(Seq::new(v.len(), |i: int| Cap::Msg))
    } else {
        None
    }
}

/// Whether a request is the right one to grant a token. The capabilities are read first, then the
/// time to live.
pub open spec fn grant_asked(
    peer: Seq<char>,
    caps: Seq<Seq<char>>,
    ttl: Option<Seq<char>>,
    r: Result<IpcRequest, CliError>,
) -> bool {
    match r {
        Ok(IpcRequest::TokenGrant { peer: p, caps: c, ttl_secs }) => {
            &&& p@ == selected(peer)
            &&& caps_named(caps) == Some(c@)
            &&& match ttl {
                None => ttl_secs is None,
                Some(d) => ttl_secs is Some && ttl_secs == duration_secs(d),
            }
        },
        Ok(_) => false,
        Err(CliError::UnknownCap(m)) => exists|i: int|
            {
                &&& 0 <= i < caps.len()
                &&& #[trigger] caps[i] != "msg"@
                &&& m@ == "unknown capability: "@ + caps[i]
                &&& forall|j: int| 0 <= j < i ==> #[trigger] caps[j] == "msg"@
            },
        Err(e) => {
            &&& caps_named(caps) is Some
            &&& ttl is Some && duration_secs(ttl->0) is None && duration_fault(ttl->0, e)
        },
    }
}

/// The request that grants a token.
pub fn grant_request(peer: &str, caps: &Vec<String>, ttl: Option<String>) -> (r: Result<
    IpcRequest,
    CliError,
>)
    ensures
        grant_asked(peer@, text::texts(caps@), text::opt_text(ttl), r),
{
    let mut list: Vec<Cap> = Vec::new();
    let mut i: usize = 0;
    while i < caps.len()
        invariant
            i <= caps.len(),
            list@.len() == i,
            forall|j: int| 0 <= j < i ==> #[trigger] list@[j] == Cap::Msg,
            forall|j: int| 0 <= j < i ==> #[trigger] text::texts(caps@)[j] == "msg"@,
        decreases caps.len() - i,
    {
        assert(text::texts(caps@)[i as int] == caps@[i as int]@);
        match Cap::parse(caps[i].as_str()) {
            Ok(c) => list.push(c),
            Err(m) => return Err(CliError::UnknownCap(m)),
        }
        i = i + 1;
    }
    assert(list@ =~= Seq::new(caps@.len(), |i: int| Cap::Msg));
    let ttl_secs: Option<u64> = match &ttl {
        None => None,
        Some(t) => match parse_duration(t.as_str()) {
            Ok(n) => Some(n),
            Err(e) => return Err(e),
        },
    };
    Ok(IpcRequest::TokenGrant { peer: peer_selector(peer), caps: list, ttl_secs })
}

/// The flags of a spawn.
#[derive(Debug)]
pub struct SpawnFlags {
    pub session: String,
    pub dir: String,
    pub worktree: bool,
    pub new: bool,
    /// Whether the directory is in a git repository.
    pub in_repository: bool,
    pub prompt: Option<String>,
    pub idle_timeout: Option<String>,
    pub permission_mode: Option<String>,
    pub plan: bool,
    pub skip_permissions: bool,
    pub trace: bool,
    pub coordinator: bool,
}

/// The permission mode of a spawn: the one that is given, else the read-only one where asked for.
pub open spec fn permission_of(mode: Option<Seq<char>>, plan: bool) -> Option<Seq<char>> {
    if plan && mode is None {
        Some("plan"@)
    } else {
        mode
    }
}

/// Whether a request is the right one to spawn a session. What is missing or wrong is reported in
/// the order group, token, mode, idle timeout.
pub open spec fn spawn_asked(
    f: SpawnFlags,
    given_group: Option<Seq<char>>,
    given_token: Option<Seq<char>>,
    r: Result<IpcRequest, CliError>,
) -> bool {
    match r {
        Ok(
            IpcRequest::Spawn {
                token,
                group,
                session,
                base_dir,
                fs_mode,
                branch,
                label,
                prompt,
                harness_argv,
                idle_timeout_secs,
                permission_mode,
                skip_permissions,
                trace,
                coordinator,
            },
        ) => {
            &&& Some(token@) == given_token
            &&& Some(group@) == given_group
            &&& session@ == f.session@
            &&& base_dir@ == f.dir@
            &&& !(f.worktree && f.new)
            &&& fs_mode == if f.worktree || (!f.new && f.in_repository) {
                FsMode::Worktree
            } else {
                FsMode::New
            }
            &&& branch is None
            &&& label is None
            &&& prompt@ == match f.prompt {
                Some(p) => p@,
                None => Seq::empty(),
            }
            &&& harness_argv is None
            &&& match f.idle_timeout {
                None => idle_timeout_secs is None,
                Some(d) => idle_timeout_secs is Some && idle_timeout_secs == duration_secs(d@),
            }
            &&& text::opt_text(permission_mode) == permission_of(
                text::opt_text(f.permission_mode),
                f.plan,
            )
            &&& skip_permissions == f.skip_permissions
            &&& trace == f.trace
            &&& coordinator == f.coordinator
        },
        Ok(_) => false,
        Err(e) => if given_group is None {
            e is NoGroup
        } else if given_token is None {
            e is NoToken
        } else if f.worktree && f.new {
            e is BothModes
        } else {
            &&& f.idle_timeout is Some
            &&& duration_secs(f.idle_timeout->0@) is None
            &&& duration_fault(f.idle_timeout->0@, e)
        },
    }
}

/// The request that spawns a session.
pub fn spawn_request(f: SpawnFlags, group: Option<String>, token: Option<String>) -> (r: Result<
    IpcRequest,
    CliError,
>)
    ensures
        spawn_asked(f, text::opt_text(group), text::opt_text(token), r),
{
    let group = match group {
        Some(g) => g,
        None => return Err(CliError::NoGroup),
    };
    let token = match token {
        Some(t) => t,
        None => return Err(CliError::NoToken),
    };
    let fs_mode = match resolve_fs_mode(f.worktree, f.new, f.in_repository) {
        Ok(m) => m,
        Err(e) => return Err(e),
    };
    let idle_timeout_secs: Option<u64> = match &f.idle_timeout {
        None => None,
        Some(t) => match parse_duration(t.as_str()) {
            Ok(n) => Some(n),
            Err(e) => return Err(e),
        },
    };
    let permission_mode = match f.permission_mode {
        Some(m) => Some(m),
        None => if f.plan {
            Some("plan".to_owned())
        } else {
            None
        },
    };
    let prompt = match f.prompt {
        Some(p) => p,
        None => String::new(),
    };
    assert(f.prompt is None ==> prompt@ =~= Seq::<char>::empty());
    Ok(
        IpcRequest::Spawn {
            token,
            group,
            session: f.session,
            base_dir: f.dir,
            fs_mode,
            branch: None,
            label: None,
            prompt,
            harness_argv: None,
            idle_timeout_secs,
            permission_mode,
            skip_permissions: f.skip_permissions,
            trace: f.trace,
            coordinator: f.coordinator,
        },
    )
}

} // verus!
