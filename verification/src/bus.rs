//! The local agent bus: what is kept in the store is also published to whoever listens.

use vstd::prelude::*;

use crate::ipc::AgentMsgKind;
use crate::ipc::EventV;
use crate::ipc::IpcEvent;
use crate::rows::BusV;
use crate::store;
use crate::store::Store;
use crate::store::StoreError;
use crate::store::StoreV;
use crate::text;

verus! {

/// A message as it is published on the bus, with what it takes to route it.
#[derive(Debug)]
pub struct BusEvent {
    pub group: String,
    pub session: String,
    pub from_agent: String,
    pub to_agent: String,
    pub kind: AgentMsgKind,
    pub payload: Vec<u8>,
    pub ts_ms: u64,
    /// The sequence number of the stored row, so that a listener can mark it as read.
    pub seq: u64,
}

/// The model of a published message.
#[verifier::ext_equal]
pub struct BusEventV {
    pub group: Seq<char>,
    pub session: Seq<char>,
    pub from_agent: Seq<char>,
    pub to_agent: Seq<char>,
    pub kind: AgentMsgKind,
    pub payload: Seq<u8>,
    pub ts_ms: u64,
    pub seq: u64,
}

impl View for BusEvent {
    type V = BusEventV;

    open spec fn view(&self) -> BusEventV {
        BusEventV {
            group: self.group@,
            session: self.session@,
            from_agent: self.from_agent@,
            to_agent: self.to_agent@,
            kind: self.kind,
            payload: self.payload@,
            ts_ms: self.ts_ms,
            seq: self.seq,
        }
    }
}

impl Clone for BusEvent {
    fn clone(&self) -> (r: Self)
        ensures
            r@ == self@,
    {
        BusEvent {
            group: self.group.clone(),
            session: self.session.clone(),
            from_agent: self.from_agent.clone(),
            to_agent: self.to_agent.clone(),
            kind: self.kind,
            payload: text::bytes_copy(self.payload.as_slice()),
            ts_ms: self.ts_ms,
            seq: self.seq,
        }
    }
}

/// The name of a kind of message.
pub open spec fn kind_name(k: AgentMsgKind) -> Seq<char> {
    match k {
        AgentMsgKind::TurnOutput => "turn_output"@,
        AgentMsgKind::TurnInput => "turn_input"@,
        AgentMsgKind::User => "user"@,
        AgentMsgKind::Control => "control"@,
        AgentMsgKind::Trace => "trace"@,
    }
}

/// The kind of message that a name stands for; a free-form message where it stands for none.
pub open spec fn kind_named(s: Seq<char>) -> AgentMsgKind {
    if s == "turn_output"@ {
        AgentMsgKind::TurnOutput
    } else if s == "turn_input"@ {
        AgentMsgKind::TurnInput
    } else if s == "control"@ {
        AgentMsgKind::Control
    } else if s == "trace"@ {
        AgentMsgKind::Trace
    } else {
        AgentMsgKind::User
    }
}

/// The name of a kind of message.
pub fn kind_to_str(k: AgentMsgKind) -> (r: &'static str)
    ensures
        r@ == kind_name(k),
{
    match k {
        AgentMsgKind::TurnOutput => "turn_output",
        AgentMsgKind::TurnInput => "turn_input",
        AgentMsgKind::User => "user",
        AgentMsgKind::Control => "control",
        AgentMsgKind::Trace => "trace",
    }
}

/// The kind of message that a name stands for.
pub fn kind_from_str(s: &str) -> (r: AgentMsgKind)
    ensures
        r == kind_named(s@),
{
    if text::str_eq(s, "turn_output") {
        AgentMsgKind::TurnOutput
    } else if text::str_eq(s, "turn_input") {
        AgentMsgKind::TurnInput
    } else if text::str_eq(s, "control") {
        AgentMsgKind::Control
    } else if text::str_eq(s, "trace") {
        AgentMsgKind::Trace
    } else {
        AgentMsgKind::User
    }
}

/// Every kind of message is read back from its name.
pub proof fn law_kind_roundtrip(k: AgentMsgKind)
    ensures
        kind_named(kind_name(k)) == k,
{
    reveal_strlit("turn_output");
    reveal_strlit("turn_input");
    reveal_strlit("user");
    reveal_strlit("control");
    reveal_strlit("trace");
    assert("turn_output"@.len() == 11 && "turn_input"@.len() == 10 && "user"@.len() == 4
        && "control"@.len() == 7 && "trace"@.len() == 5);
}

/// Whether there is a sequence number left in a session.
pub open spec fn has_room(s: StoreV, group: Seq<char>, session: Seq<char>) -> bool {
    store::last_bus_seq(s, group, session) < u64::MAX
}

/// The row that a message is stored as.
pub open spec fn row_for(
    s: StoreV,
    group: Seq<char>,
    session: Seq<char>,
    from: Seq<char>,
    to: Seq<char>,
    kind: AgentMsgKind,
    payload: Seq<u8>,
    now_ms: u64,
) -> BusV {
    store::next_bus(s, group, session, from, to, kind_name(kind), payload, now_ms)
}

/// The state once a message was sent on the bus.
pub open spec fn sent(
    s: StoreV,
    group: Seq<char>,
    session: Seq<char>,
    from: Seq<char>,
    to: Seq<char>,
    kind: AgentMsgKind,
    payload: Seq<u8>,
    now_ms: u64,
) -> StoreV {
    if has_room(s, group, session) {
        store::bus_appended(s, row_for(s, group, session, from, to, kind, payload, now_ms))
    } else {
        s
    }
}

/// The message that is published when a row is stored.
pub open spec fn published(m: BusV, kind: AgentMsgKind) -> BusEventV {
    BusEventV {
        group: m.group_name,
        session: m.session_name,
        from_agent: m.from_agent,
        to_agent: m.to_agent,
        kind,
        payload: m.payload,
        ts_ms: m.enqueued_at_ms,
        seq: m.seq,
    }
}

/// What is published when a message is sent: the message, or nothing where it could not be stored.
pub open spec fn publication(
    s: StoreV,
    group: Seq<char>,
    session: Seq<char>,
    from: Seq<char>,
    to: Seq<char>,
    kind: AgentMsgKind,
    payload: Seq<u8>,
    now_ms: u64,
) -> Seq<BusEventV> {
    if has_room(s, group, session) {
        seq![published(row_for(s, group, session, from, to, kind, payload, now_ms), kind)]
    } else {
        Seq::empty()
    }
}

/// Stores a message on the bus. What is returned is to be published.
pub fn bus_enqueue(
    store: &mut Store,
    group: &str,
    session: &str,
    from: &str,
    to: &str,
    kind: AgentMsgKind,
    payload: Vec<u8>,
    now_ms: u64,
) -> (r: Result<BusEvent, StoreError>)
    ensures
        final(store)@ == sent(
            old(store)@,
            group@,
            session@,
            from@,
            to@,
            kind,
            payload@,
            now_ms,
        ),
        match r {
            Ok(e) => {
                &&& has_room(old(store)@, group@, session@)
                &&& e@ == published(
                    row_for(
                        old(store)@,
                        group@,
                        session@,
                        from@,
                        to@,
                        kind,
                        payload@,
                        now_ms,
                    ),
                    kind,
                )
            },
            Err(e) => !has_room(old(store)@, group@, session@) && e is SeqExhausted,
        },
{
    match store.agent_msg_enqueue_at(group, session, from, to, kind_to_str(kind), payload, now_ms) {
        Ok(row) => Ok(
            BusEvent {
                group: row.group_name,
                session: row.session_name,
                from_agent: row.from_agent,
                to_agent: row.to_agent,
                kind,
                payload: row.payload,
                ts_ms: row.enqueued_at_ms,
                seq: row.seq,
            },
        ),
        Err(e) => Err(e),
    }
}

/// Stores a message on the bus and adds it to what is to be published; a message that cannot be
/// stored is passed over.
pub fn bus_send(
    store: &mut Store,
    group: &str,
    session: &str,
    from: &str,
    to: &str,
    kind: AgentMsgKind,
    payload: Vec<u8>,
    now_ms: u64,
) -> (r: Vec<BusEvent>)
    ensures
        final(store)@ == sent(
            old(store)@,
            group@,
            session@,
            from@,
            to@,
            kind,
            payload@,
            now_ms,
        ),
        crate::table::rows(r@) == publication(
            old(store)@,
            group@,
            session@,
            from@,
            to@,
            kind,
            payload@,
            now_ms,
        ),
{
    let mut out: Vec<BusEvent> = Vec::new();
    if let Ok(e) = bus_enqueue(store, group, session, from, to, kind, payload, now_ms) {
        out.push(e);
    }
    assert(crate::table::rows(out@) =~= publication(
        old(store)@,
        group@,
        session@,
        from@,
        to@,
        kind,
        payload@,
        now_ms,
    ));
    out
}

/// The event that a stored message is shown as.
pub open spec fn shown(m: BusV) -> EventV {
    EventV::AgentMsg {
        session: m.session_name,
        from_agent: m.from_agent,
        kind: kind_named(m.kind),
        payload: m.payload,
        ts_ms: m.enqueued_at_ms,
    }
}

/// Whether a published message is for the agent that listens, in the session that it listens to.
pub open spec fn is_for(
    e: BusEventV,
    group: Seq<char>,
    agent: Seq<char>,
    session: Option<Seq<char>>,
) -> bool {
    &&& e.group == group
    &&& e.to_agent == agent
    &&& session matches Some(s) ==> e.session == s
}

/// The event that a published message is shown to a listener as, if it is for it.
pub open spec fn live_shown(
    e: BusEventV,
    group: Seq<char>,
    agent: Seq<char>,
    session: Option<Seq<char>>,
) -> Option<EventV> {
    if is_for(e, group, agent, session) {
        Some(
            EventV::AgentMsg {
                session: e.session,
                from_agent: e.from_agent,
                kind: e.kind,
                payload: e.payload,
                ts_ms: e.ts_ms,
            },
        )
    } else {
        None
    }
}

/// The event that a published message is shown to a listener as; `None` where it is not for it.
pub fn live_event(e: &BusEvent, group: &str, agent: &str, session: &Option<String>) -> (r: Option<
    IpcEvent,
>)
    ensures
        crate::table::opt_row(r) == live_shown(e@, group@, agent@, text::opt_text(*session)),
{
    let in_session = match session {
        Some(s) => *s == e.session,
        None => true,
    };
    if text::str_eq(e.group.as_str(), group) && text::str_eq(e.to_agent.as_str(), agent)
        && in_session {
        Some(
            IpcEvent::AgentMsg {
                session: e.session.clone(),
                from_agent: e.from_agent.clone(),
                kind: e.kind,
                payload: text::bytes_copy(e.payload.as_slice()),
                ts_ms: e.ts_ms,
            },
        )
    } else {
        None
    }
}

/// What is published of a message is what a later reader finds stored, under the same kind.
pub proof fn law_live_matches_backlog(
    s: StoreV,
    group: Seq<char>,
    session: Seq<char>,
    from: Seq<char>,
    to: Seq<char>,
    kind: AgentMsgKind,
    payload: Seq<u8>,
    now_ms: u64,
)
    ensures
        ({
            let m = row_for(s, group, session, from, to, kind, payload, now_ms);
            let e = published(m, kind);
            &&& is_for(e, group, to, None)
            &&& is_for(e, group, to, Some(session))
            &&& shown(m) == EventV::AgentMsg {
                session: e.session,
                from_agent: e.from_agent,
                kind: e.kind,
                payload: e.payload,
                ts_ms: e.ts_ms,
            }
        }),
{
    law_kind_roundtrip(kind);
}

} // verus!
