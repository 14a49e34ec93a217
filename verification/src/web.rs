//! What the browser dashboard is shown and may do.
//!
//! The gateway listens on the local machine only and acts for the prime. What keeps other pages out
//! is the origin that a browser states.

use vstd::prelude::*;

use crate::bus;
use crate::bus::BusEvent;
use crate::bus::BusEventV;
use crate::harness;
use crate::ipc::AgentMsgKind;
use crate::rows::AgentV;
use crate::rows::BusV;
use crate::rows::SessionV;
use crate::store;
use crate::store::Store;
use crate::store::StoreError;
use crate::store::StoreV;
use crate::table;
use crate::text;

verus! {

/// Where the gateway listens unless told otherwise.
pub const DEFAULT_ADDR: &'static str = "127.0.0.1:8787";

/// Whether `origin` is a page of the given host on plain HTTP, on any port.
pub open spec fn is_page_of(origin: Seq<char>, host: Seq<char>) -> bool {
    let n = host.len() as int;
    &&& origin.len() >= n
    &&& origin.take(n) == host
    &&& origin.len() > n ==> origin[n] == ':' && text::is_decimal(origin.skip(n + 1))
}

/// Whether a request with the given origin is let through: one without an origin, one of a browser
/// extension, and one of a page on this machine.
pub open spec fn origin_ok(origin: Option<Seq<char>>) -> bool {
    match origin {
        None => true,
        Some(o) => {
            ||| "chrome-extension://"@.is_prefix_of(o)
            ||| "moz-extension://"@.is_prefix_of(o)
            ||| is_page_of(o, "http://127.0.0.1"@)
            ||| is_page_of(o, "http://localhost"@)
        },
    }
}

fn starts_with(s: &str, prefix: &str) -> (r: bool)
    ensures
        r == prefix@.is_prefix_of(s@),
{
    let n = prefix.unicode_len();
    if s.unicode_len() < n {
        return false;
    }
    let r = text::str_eq(s.substring_char(0, n), prefix);
    assert(s@.subrange(0, n as int) =~= s@.take(n as int));
    r
}

fn page_of(origin: &str, host: &str) -> (r: bool)
    ensures
        r == is_page_of(origin@, host@),
{
    let n = host.unicode_len();
    let len = origin.unicode_len();
    if len < n || !text::str_eq(origin.substring_char(0, n), host) {
        assert(len >= n ==> origin@.subrange(0, n as int) =~= origin@.take(n as int));
        return false;
    }
    assert(origin@.subrange(0, n as int) =~= origin@.take(n as int));
    if len == n {
        return true;
    }
    if origin.get_char(n) != ':' || len == n + 1 {
        return false;
    }
    let v = text::chars_of(origin);
    let ghost digits = origin@.skip(n + 1);
    let mut i: usize = n + 1;
    while i < len
        invariant
            n + 1 <= i <= len,
            len == v@.len(),
            n == host@.len(),
            v@ == origin@,
            digits == origin@.skip(n + 1),
            origin@.len() > n,
            forall|j: int| 0 <= j < i - n - 1 ==> text::is_digit(#[trigger] digits[j]),
        decreases len - i,
    {
        assert(digits[i - n - 1] == v@[i as int]);
        if v[i] < '0' || v[i] > '9' {
            assert(!text::is_digit(digits[i - n - 1]));
            return false;
        }
        i = i + 1;
    }
    true
}

/// Whether a request with the given origin is let through.
pub fn origin_allowed(origin: Option<&str>) -> (r: bool)
    ensures
        r == origin_ok(text::opt_str(origin)),
{
    match origin {
        None => true,
        Some(o) => starts_with(o, "chrome-extension://") || starts_with(o, "moz-extension://")
            || page_of(o, "http://127.0.0.1") || page_of(o, "http://localhost"),
    }
}

/// A session as the dashboard shows it.
pub struct SessionCard {
    pub name: String,
    pub prime_agent: String,
    pub child_agent: String,
    pub fs_mode: String,
    pub workspace_path: String,
    pub branch: Option<String>,
    pub session_status: String,
    pub created_at_ms: u64,
    pub agent_status: Option<String>,
    pub agent_role: Option<String>,
    pub pid: Option<i64>,
    pub last_seen_ms: Option<u64>,
}

/// The model of a session as the dashboard shows it.
#[verifier::ext_equal]
pub struct CardV {
    pub name: Seq<char>,
    pub prime_agent: Seq<char>,
    pub child_agent: Seq<char>,
    pub fs_mode: Seq<char>,
    pub workspace_path: Seq<char>,
    pub branch: Option<Seq<char>>,
    pub session_status: Seq<char>,
    pub created_at_ms: u64,
    pub agent_status: Option<Seq<char>>,
    pub agent_role: Option<Seq<char>>,
    pub pid: Option<i64>,
    pub last_seen_ms: Option<u64>,
}

impl View for SessionCard {
    type V = CardV;

    open spec fn view(&self) -> CardV {
        CardV {
            name: self.name@,
            prime_agent: self.prime_agent@,
            child_agent: self.child_agent@,
            fs_mode: self.fs_mode@,
            workspace_path: self.workspace_path@,
            branch: text::opt_text(self.branch),
            session_status: self.session_status@,
            created_at_ms: self.created_at_ms,
            agent_status: text::opt_text(self.agent_status),
            agent_role: text::opt_text(self.agent_role),
            pid: self.pid,
            last_seen_ms: self.last_seen_ms,
        }
    }
}

/// A session with what is known of its child.
pub open spec fn card(s: SessionV, a: Option<AgentV>) -> CardV {
    CardV {
        name: s.name,
        prime_agent: s.prime_agent,
        child_agent: s.child_agent,
        fs_mode: s.fs_mode,
        workspace_path: s.workspace_path,
        branch: s.branch,
        session_status: s.status,
        created_at_ms: s.created_at_ms,
        agent_status: match a {
            Some(x) => Some(x.status),
            None => None,
        },
        agent_role: match a {
            Some(x) => Some(x.role),
            None => None,
        },
        pid: match a {
            Some(x) => x.pid,
            None => None,
        },
        last_seen_ms: match a {
            Some(x) => x.last_seen_ms,
            None => None,
        },
    }
}

/// The sessions of a group as the dashboard shows them.
pub open spec fn cards(s: StoreV, group: Seq<char>) -> Seq<CardV> {
    store::sessions_of(s, group).map_values(
        |x: SessionV| card(x, store::agent_of(s, group, x.child_agent)),
    )
}

/// The sessions of a group as the dashboard shows them.
pub fn list_sessions(store: &Store, group: &str) -> (r: Vec<SessionCard>)
    ensures
        table::rows(r@) == cards(store@, group@),
{
    let sessions = store.session_list(group);
    let mut out: Vec<SessionCard> = Vec::new();
    let mut i: usize = 0;
    while i < sessions.len()
        invariant
            i <= sessions.len(),
            out@.len() == i,
            forall|j: int|
                0 <= j < i ==> (#[trigger] out@[j])@ == card(
                    sessions@[j]@,
                    store::agent_of(store@, group@, sessions@[j]@.child_agent),
                ),
        decreases sessions.len() - i,
    {
        let s = &sessions[i];
        let agent = store.agent_get(group, s.child_agent.as_str());
        let (agent_status, agent_role, pid, last_seen_ms) = match agent {
            Some(a) => (Some(a.status), Some(a.role), a.pid, a.last_seen_ms),
            None => (None, None, None, None),
        };
        out.push(
            SessionCard {
                name: s.name.clone(),
                prime_agent: s.prime_agent.clone(),
                child_agent: s.child_agent.clone(),
                fs_mode: s.fs_mode.clone(),
                workspace_path: s.workspace_path.clone(),
                branch: text::opt_text_copy(&s.branch),
                session_status: s.status.clone(),
                created_at_ms: s.created_at_ms,
                agent_status,
                agent_role,
                pid,
                last_seen_ms,
            },
        );
        i = i + 1;
    }
    assert(table::rows(out@) =~= cards(store@, group@));
    out
}

/// A message as the dashboard shows it.
pub struct MessageCard {
    pub session: String,
    pub seq: u64,
    pub from_agent: String,
    pub to_agent: String,
    pub kind: String,
    pub text: String,
    pub ts_ms: u64,
}

/// The model of a message as the dashboard shows it.
#[verifier::ext_equal]
pub struct MessageCardV {
    pub session: Seq<char>,
    pub seq: u64,
    pub from_agent: Seq<char>,
    pub to_agent: Seq<char>,
    pub kind: Seq<char>,
    pub text: Seq<char>,
    pub ts_ms: u64,
}

impl View for MessageCard {
    type V = MessageCardV;

    open spec fn view(&self) -> MessageCardV {
        MessageCardV {
            session: self.session@,
            seq: self.seq,
            from_agent: self.from_agent@,
            to_agent: self.to_agent@,
            kind: self.kind@,
            text: self.text@,
            ts_ms: self.ts_ms,
        }
    }
}

/// A stored message as the dashboard shows it.
pub open spec fn message_card(m: BusV) -> MessageCardV {
    MessageCardV {
        session: m.session_name,
        seq: m.seq,
        from_agent: m.from_agent,
        to_agent: m.to_agent,
        kind: m.kind,
        text: harness::lossy_text(m.payload),
        ts_ms: m.enqueued_at_ms,
    }
}

/// The transcript of a session behind a sequence number, as the dashboard shows it.
pub open spec fn transcript(
    s: StoreV,
    group: Seq<char>,
    session: Seq<char>,
    after_seq: u64,
) -> Seq<MessageCardV> {
    store::session_log(s, group, session, after_seq).map_values(|m: BusV| message_card(m))
}

/// The transcript of a session behind a sequence number, as the dashboard shows it.
pub fn list_messages(store: &Store, group: &str, session: &str, after_seq: u64) -> (r: Vec<
    MessageCard,
>)
    ensures
        table::rows(r@) == transcript(store@, group@, session@, after_seq),
{
    let rows = store.agent_msg_session_log(group, session, after_seq);
    let mut out: Vec<MessageCard> = Vec::new();
    let mut i: usize = 0;
    while i < rows.len()
        invariant
            i <= rows.len(),
            out@.len() == i,
            forall|j: int| 0 <= j < i ==> (#[trigger] out@[j])@ == message_card(rows@[j]@),
        decreases rows.len() - i,
    {
        let m = &rows[i];
        out.push(
            MessageCard {
                session: m.session_name.clone(),
                seq: m.seq,
                from_agent: m.from_agent.clone(),
                to_agent: m.to_agent.clone(),
                kind: m.kind.clone(),
                text: harness::from_utf8_lossy(m.payload.as_slice()),
                ts_ms: m.enqueued_at_ms,
            },
        );
        i = i + 1;
    }
    assert(table::rows(out@) =~= transcript(store@, group@, session@, after_seq));
    out
}

/// A published message as the dashboard of a group is shown it; `None` where it is of another group.
pub open spec fn live_message(e: BusEventV, group: Seq<char>) -> Option<MessageCardV> {
    if e.group == group {
        Some(
            MessageCardV {
                session: e.session,
                seq: e.seq,
                from_agent: e.from_agent,
                to_agent: e.to_agent,
                kind: bus::kind_name(e.kind),
                text: harness::lossy_text(e.payload),
                ts_ms: e.ts_ms,
            },
        )
    } else {
        None
    }
}

/// A published message as the dashboard of a group is shown it; `None` where it is of another group.
pub fn live_card(e: &BusEvent, group: &str) -> (r: Option<MessageCard>)
    ensures
        table::opt_row(r) == live_message(e@, group@),
{
    if !text::str_eq(e.group.as_str(), group) {
        return None;
    }
    Some(
        MessageCard {
            session: e.session.clone(),
            seq: e.seq,
            from_agent: e.from_agent.clone(),
            to_agent: e.to_agent.clone(),
            kind: bus::kind_to_str(e.kind).to_owned(),
            text: harness::from_utf8_lossy(e.payload.as_slice()),
            ts_ms: e.ts_ms,
        },
    )
}

/// Why the dashboard's message was not sent.
#[derive(Debug, Clone, Copy, PartialEq, Eq, Structural)]
pub enum SendError {
    /// There is no such session.
    NoSuchSession,
    /// The store refused it.
    Store(StoreError),
}

/// The kind of a message that the dashboard sends: the one it names, else the next turn.
pub open spec fn send_kind(kind: Option<Seq<char>>) -> AgentMsgKind {
    match kind {
        Some(k) => bus::kind_named(k),
        None => AgentMsgKind::TurnInput,
    }
}

/// The store once the dashboard sent a message of the prime to the child of a session.
pub open spec fn after_page_message(
    s: StoreV,
    group: Seq<char>,
    session: Seq<char>,
    kind: Option<Seq<char>>,
    body: Seq<char>,
    now_ms: u64,
) -> StoreV {
    match store::session_of(s, group, session) {
        None => s,
        Some(x) => bus::sent(
            s,
            group,
            session,
            x.prime_agent,
            x.child_agent,
            send_kind(kind),
            text::utf8(body),
            now_ms,
        ),
    }
}

/// What is published of a message that the dashboard sends, or why it is not sent.
pub open spec fn page_message(
    s: StoreV,
    group: Seq<char>,
    session: Seq<char>,
    kind: Option<Seq<char>>,
    body: Seq<char>,
    now_ms: u64,
) -> Result<BusEventV, SendError> {
    match store::session_of(s, group, session) {
        None => Err(SendError::NoSuchSession),
        Some(x) => if bus::has_room(s, group, session) {
            Ok(
                bus::published(
                    bus::row_for(
                        s,
                        group,
                        session,
                        x.prime_agent,
                        x.child_agent,
                        send_kind(kind),
                        text::utf8(body),
                        now_ms,
                    ),
                    send_kind(kind),
                ),
            )
        } else {
            Err(SendError::Store(StoreError::SeqExhausted))
        },
    }
}

/// Sends a message of the prime to the child of a session. What is returned is to be published.
pub fn send_message(
    store: &mut Store,
    group: &str,
    session: &str,
    kind: Option<&str>,
    body: &str,
    now_ms: u64,
) -> (r: Result<BusEvent, SendError>)
    ensures
        final(store)@ == after_page_message(
            old(store)@,
            group@,
            session@,
            text::opt_str(kind),
            body@,
            now_ms,
        ),
        ({
            let m = page_message(
                old(store)@,
                group@,
                session@,
                text::opt_str(kind),
                body@,
                now_ms,
            );
            match r {
                Ok(e) => m == Ok::<BusEventV, SendError>(e@),
                Err(e) => m == Err::<BusEventV, SendError>(e),
            }
        }),
{
    let x = match store.session_get(group, session) {
        Some(x) => x,
        None => return Err(SendError::NoSuchSession),
    };
    let k = match kind {
        Some(k) => bus::kind_from_str(k),
        None => AgentMsgKind::TurnInput,
    };
    match bus::bus_enqueue(
        store,
        group,
        session,
        x.prime_agent.as_str(),
        x.child_agent.as_str(),
        k,
        body.as_bytes_vec(),
        now_ms,
    ) {
        Ok(e) => Ok(e),
        Err(e) => Err(SendError::Store(e)),
    }
}

/// A page of another host is never let through, however its name begins.
pub proof fn law_foreign_pages_are_kept_out(host: Seq<char>, rest: Seq<char>)
    requires
        host == "http://127.0.0.1"@ || host == "http://localhost"@,
        rest.len() > 0,
        rest[0] != ':',
    ensures
        !origin_ok(Some(host + rest)),
{
    reveal_strlit("chrome-extension://");
    reveal_strlit("moz-extension://");
    reveal_strlit("http://127.0.0.1");
    reveal_strlit("http://localhost");
    let o = host + rest;
    assert(o[0] == 'h');
    assert(o[7] == host[7]);
    assert(o.take(16) =~= host);
    assert(o[16] == rest[0]);
    assert("http://127.0.0.1"@.len() == 16 && "http://localhost"@.len() == 16);
    if "chrome-extension://"@.is_prefix_of(o) {
        assert(o[0] == "chrome-extension://"@[0]);
    }
    if "moz-extension://"@.is_prefix_of(o) {
        assert(o[0] == "moz-extension://"@[0]);
    }
}

} // verus!
