//! The supervisor of one child: it feeds the prime's replies to the child's harness and puts what
//! the harness reports on the bus.
//!
//! The replies that are fed are those that the store holds unread; whatever wakes the supervisor is
//! only a reason to look. A child that is silent within a turn for longer than the session allows is
//! reported to the prime once, and left running.

use vstd::prelude::*;

use crate::bus;
use crate::bus::BusEvent;
use crate::bus::BusEventV;
use crate::harness;
use crate::harness::HarnessEvent;
use crate::harness::HarnessV;
use crate::ipc::AgentMsgKind;
use crate::lookup_laws;
use crate::rows::AgentV;
use crate::rows::BusV;
use crate::store;
use crate::store::Store;
use crate::store::StoreV;
use crate::store_laws;
use crate::table;
use crate::text;

verus! {

/// How often the supervisor looks for replies and for silence, in milliseconds.
pub const POLL_MS: u64 = 3000;

/// A supervisor. The child's name is that of its session.
#[derive(Debug)]
pub struct Supervisor {
    pub group: String,
    pub session: String,
    pub prime: String,
    /// How long a turn may be silent, in seconds, if there is a limit.
    pub idle_timeout_secs: Option<u64>,
    /// Whether the child's intermediate text is forwarded.
    pub trace: bool,
    /// Whether the child is within a turn.
    pub turn_active: bool,
    /// When the child was last heard of or spoken to, in milliseconds.
    pub last_activity_ms: u64,
    /// Whether the prime was told of the present silence.
    pub idle_notified: bool,
}

/// The model of a supervisor.
#[verifier::ext_equal]
pub struct SupervisorV {
    pub group: Seq<char>,
    pub session: Seq<char>,
    pub prime: Seq<char>,
    pub idle_timeout_secs: Option<u64>,
    pub trace: bool,
    pub turn_active: bool,
    pub last_activity_ms: u64,
    pub idle_notified: bool,
}

impl View for Supervisor {
    type V = SupervisorV;

    open spec fn view(&self) -> SupervisorV {
        SupervisorV {
            group: self.group@,
            session: self.session@,
            prime: self.prime@,
            idle_timeout_secs: self.idle_timeout_secs,
            trace: self.trace,
            turn_active: self.turn_active,
            last_activity_ms: self.last_activity_ms,
            idle_notified: self.idle_notified,
        }
    }
}

/// What the supervisor wants done after a report.
pub struct Outcome {
    /// To be published on the bus.
    pub published: Vec<BusEvent>,
    /// Whether the child is gone and the supervisor with it.
    pub finished: bool,
}

/// A turn that is to be fed to the harness.
pub struct Turn {
    pub session: String,
    pub seq: u64,
    /// The line to write.
    pub line: String,
}

/// The model of a turn.
#[verifier::ext_equal]
pub struct TurnV {
    pub session: Seq<char>,
    pub seq: u64,
    pub line: Seq<char>,
}

impl View for Turn {
    type V = TurnV;

    open spec fn view(&self) -> TurnV {
        TurnV { session: self.session@, seq: self.seq, line: self.line@ }
    }
}

/// A supervisor that has just seen activity.
pub open spec fn active(v: SupervisorV, at_ms: u64, in_turn: bool) -> SupervisorV {
    SupervisorV { turn_active: in_turn, last_activity_ms: at_ms, idle_notified: false, ..v }
}

/// The notice that a child has exited.
pub open spec fn exit_notice(code: Option<i32>) -> Seq<char> {
    match code {
        Some(c) => "child exited (code Some("@ + text::signed_text(c as int) + "))"@,
        None => "child exited (code None)"@,
    }
}

/// The notice that a turn is silent.
pub open spec fn idle_notice(idle_secs: nat) -> Seq<char> {
    "turn idle for "@ + text::decimal_text(idle_secs) + "s — harness still running"@
}

/// The state once a message of the child to the prime was sent.
pub open spec fn child_said(
    s: StoreV,
    v: SupervisorV,
    kind: AgentMsgKind,
    payload: Seq<u8>,
    now_ms: u64,
) -> StoreV {
    bus::sent(s, v.group, v.session, v.session, v.prime, kind, payload, now_ms)
}

/// What is published of a message of the child to the prime.
pub open spec fn child_said_pub(
    s: StoreV,
    v: SupervisorV,
    kind: AgentMsgKind,
    payload: Seq<u8>,
    now_ms: u64,
) -> Seq<BusEventV> {
    bus::publication(s, v.group, v.session, v.session, v.prime, kind, payload, now_ms)
}

/// The state with the child's status set.
pub open spec fn child_status(s: StoreV, v: SupervisorV, status: Seq<char>, now_ms: u64) -> StoreV {
    store::status_set(s, v.group, v.session, status, None, now_ms)
}

/// The state once the child is marked as exited and the prime told why.
pub open spec fn finished(s: StoreV, v: SupervisorV, reason: Seq<char>, now_ms: u64) -> StoreV {
    child_said(
        child_status(s, v, "exited"@, now_ms),
        v,
        AgentMsgKind::Control,
        text::utf8(reason),
        now_ms,
    )
}

/// What is published when the child is finished.
pub open spec fn finished_pub(s: StoreV, v: SupervisorV, reason: Seq<char>, now_ms: u64) -> Seq<
    BusEventV,
> {
    child_said_pub(
        child_status(s, v, "exited"@, now_ms),
        v,
        AgentMsgKind::Control,
        text::utf8(reason),
        now_ms,
    )
}

/// What the prime is told of a harness that cannot be written to, or not be read from.
pub open spec fn failure_reason(writing: bool) -> Seq<char> {
    if writing {
        "harness write failed"@
    } else {
        "harness read error"@
    }
}

/// The state once a harness could not be written to, or not be read from.
pub open spec fn after_failure(s: StoreV, v: SupervisorV, writing: bool, now_ms: u64) -> StoreV {
    finished(s, v, failure_reason(writing), now_ms)
}

/// What is published once a harness could not be written to, or not be read from.
pub open spec fn failure_pub(s: StoreV, v: SupervisorV, writing: bool, now_ms: u64) -> Seq<
    BusEventV,
> {
    finished_pub(s, v, failure_reason(writing), now_ms)
}

/// The state once the supervisor was noted as alive.
pub open spec fn after_heartbeat(s: StoreV, v: SupervisorV, now_ms: u64) -> StoreV {
    store::agent_touched(s, v.group, v.session, now_ms)
}

/// The state after a report of the harness.
pub open spec fn after_report(s: StoreV, v: SupervisorV, e: HarnessV, now_ms: u64) -> StoreV {
    match e {
        HarnessV::AssistantText(t) => if v.trace {
            child_said(s, v, AgentMsgKind::Trace, text::utf8(t), now_ms)
        } else {
            s
        },
        HarnessV::TurnComplete { result, .. } => child_status(
            child_said(s, v, AgentMsgKind::TurnOutput, text::utf8(result), now_ms),
            v,
            "awaiting_input"@,
            now_ms,
        ),
        HarnessV::Exited(code) => finished(s, v, exit_notice(code), now_ms),
    }
}

/// What is published after a report of the harness.
pub open spec fn report_pub(s: StoreV, v: SupervisorV, e: HarnessV, now_ms: u64) -> Seq<BusEventV> {
    match e {
        HarnessV::AssistantText(t) => if v.trace {
            child_said_pub(s, v, AgentMsgKind::Trace, text::utf8(t), now_ms)
        } else {
            Seq::empty()
        },
        HarnessV::TurnComplete { result, .. } => child_said_pub(
            s,
            v,
            AgentMsgKind::TurnOutput,
            text::utf8(result),
            now_ms,
        ),
        HarnessV::Exited(code) => finished_pub(s, v, exit_notice(code), now_ms),
    }
}

/// The supervisor after a report of the harness.
pub open spec fn supervisor_after(v: SupervisorV, e: HarnessV, at_ms: u64) -> SupervisorV {
    match e {
        HarnessV::AssistantText(_) => active(v, at_ms, v.turn_active),
        HarnessV::TurnComplete { .. } => active(v, at_ms, false),
        HarnessV::Exited(_) => v,
    }
}

/// How long the child has been silent, in milliseconds.
pub open spec fn silence_ms(v: SupervisorV, at_ms: u64) -> nat {
    if at_ms >= v.last_activity_ms {
        (at_ms - v.last_activity_ms) as nat
    } else {
        0
    }
}

/// Whether the prime is to be told that the turn is silent.
pub open spec fn idle_due(v: SupervisorV, at_ms: u64) -> bool {
    &&& v.turn_active
    &&& !v.idle_notified
    &&& v.idle_timeout_secs matches Some(t) && silence_ms(v, at_ms) >= t * 1000
}

/// The supervisor of a harness that was just launched.
pub open spec fn supervisor_begun(
    group: Seq<char>,
    session: Seq<char>,
    prime: Seq<char>,
    task: Seq<char>,
    idle_timeout_secs: Option<u64>,
    trace: bool,
    at_ms: u64,
) -> SupervisorV {
    SupervisorV {
        group,
        session,
        prime,
        idle_timeout_secs,
        trace,
        turn_active: task.len() > 0,
        last_activity_ms: at_ms,
        idle_notified: false,
    }
}

/// The supervisor once a turn was written to the harness.
pub open spec fn supervisor_fed(v: SupervisorV, at_ms: u64) -> SupervisorV {
    active(v, at_ms, true)
}

/// The supervisor once it has looked for silence.
pub open spec fn idle_checked(v: SupervisorV, at_ms: u64) -> SupervisorV {
    if idle_due(v, at_ms) {
        SupervisorV { idle_notified: true, ..v }
    } else {
        v
    }
}

/// The state once the supervisor has looked for silence.
pub open spec fn after_idle_check(s: StoreV, v: SupervisorV, now_ms: u64, at_ms: u64) -> StoreV {
    if idle_due(v, at_ms) {
        child_said(
            s,
            v,
            AgentMsgKind::Control,
            text::utf8(idle_notice(silence_ms(v, at_ms) / 1000)),
            now_ms,
        )
    } else {
        s
    }
}

/// What is published once the supervisor has looked for silence.
pub open spec fn idle_check_pub(s: StoreV, v: SupervisorV, now_ms: u64, at_ms: u64) -> Seq<
    BusEventV,
> {
    if idle_due(v, at_ms) {
        child_said_pub(
            s,
            v,
            AgentMsgKind::Control,
            text::utf8(idle_notice(silence_ms(v, at_ms) / 1000)),
            now_ms,
        )
    } else {
        Seq::empty()
    }
}

/// The turn that a stored reply is fed as.
pub open spec fn turn_of(m: BusV) -> TurnV {
    TurnV {
        session: m.session_name,
        seq: m.seq,
        line: harness::turn_text(harness::lossy_text(m.payload)),
    }
}

/// The turns that wait for a child, in the order in which they are fed.
pub open spec fn waiting_turns(s: StoreV, group: Seq<char>, child: Seq<char>) -> Seq<TurnV> {
    store::pending_kind(s, group, child, "turn_input"@).map_values(|m: BusV| turn_of(m))
}

/// The state once a turn was fed: the reply is read, and the child runs.
pub open spec fn turn_fed(s: StoreV, v: SupervisorV, session: Seq<char>, seq: u64, now_ms: u64) -> StoreV {
    child_status(store::consumed(s, v.group, session, seq, now_ms), v, "running"@, now_ms)
}

/// The state once a harness was launched: the child runs, and the task it was given is on the bus,
/// read already.
pub open spec fn started(
    s: StoreV,
    v: SupervisorV,
    pid: Option<i64>,
    task: Seq<char>,
    now_ms: u64,
) -> StoreV {
    let running = store::status_set(s, v.group, v.session, "running"@, pid, now_ms);
    if task.len() == 0 || !bus::has_room(running, v.group, v.session) {
        running
    } else {
        let m = bus::row_for(
            running,
            v.group,
            v.session,
            v.prime,
            v.session,
            AgentMsgKind::TurnInput,
            text::utf8(task),
            now_ms,
        );
        store::consumed(store::bus_appended(running, m), v.group, v.session, m.seq, now_ms)
    }
}

/// What is published when a harness was launched.
pub open spec fn started_pub(
    s: StoreV,
    v: SupervisorV,
    pid: Option<i64>,
    task: Seq<char>,
    now_ms: u64,
) -> Seq<BusEventV> {
    if task.len() == 0 {
        Seq::empty()
    } else {
        bus::publication(
            store::status_set(s, v.group, v.session, "running"@, pid, now_ms),
            v.group,
            v.session,
            v.prime,
            v.session,
            AgentMsgKind::TurnInput,
            text::utf8(task),
            now_ms,
        )
    }
}

/// What wakes a supervisor besides a report of the harness.
#[derive(Debug, Clone, Copy)]
pub enum Wake {
    /// It begins.
    Begun,
    /// Something was said on the bus.
    Bus,
    /// The time between two looks is over.
    Poll,
}

/// What a supervisor does when it is woken.
#[derive(Debug, Clone, Copy, PartialEq, Eq, Structural)]
pub enum Duty {
    /// Show that it is alive, with `heartbeat`.
    Heartbeat,
    /// Write the turns that wait, each noted with `fed`.
    Feed,
    /// Look for silence, with `check_idle`.
    CheckIdle,
}

/// What a supervisor does when it is woken, in this order. Turns are fed before silence is looked
/// for, so that a turn just fed does not count as silent.
pub open spec fn duties_of(w: Wake) -> Seq<Duty> {
    match w {
        Wake::Begun => seq![Duty::Feed],
        Wake::Bus => seq![Duty::Feed],
        Wake::Poll => seq![Duty::Heartbeat, Duty::Feed, Duty::CheckIdle],
    }
}

/// What a supervisor does when it is woken, in the order in which it does it.
pub fn duties(w: Wake) -> (r: Vec<Duty>)
    ensures
        r@ == duties_of(w),
{
    let mut v: Vec<Duty> = Vec::new();
    if let Wake::Poll = w {
        v.push(Duty::Heartbeat);
    }
    v.push(Duty::Feed);
    if let Wake::Poll = w {
        v.push(Duty::CheckIdle);
    }
    assert(v@ =~= duties_of(w));
    v
}

/// The notice that a child has exited.
pub fn exit_text(code: Option<i32>) -> (r: String)
    ensures
        r@ == exit_notice(code),
{
    match code {
        Some(c) => "child exited (code Some(".to_owned().concat(text::i64_text(c as i64).as_str()).concat("))"),
        None => "child exited (code None)".to_owned(),
    }
}

impl Supervisor {
    /// A supervisor for a harness that was just launched with the given task. The child is marked as
    /// running, and the task is put on the bus for observers, as read: the harness has it already.
    pub fn start(
        store: &mut Store,
        group: &str,
        session: &str,
        prime: &str,
        task: &str,
        pid: Option<i64>,
        idle_timeout_secs: Option<u64>,
        trace: bool,
        now_ms: u64,
        at_ms: u64,
    ) -> (r: (Supervisor, Vec<BusEvent>))
        ensures
            r.0@ == supervisor_begun(
                group@,
                session@,
                prime@,
                task@,
                idle_timeout_secs,
                trace,
                at_ms,
            ),
            final(store)@ == started(old(store)@, r.0@, pid, task@, now_ms),
            table::rows(r.1@) == started_pub(old(store)@, r.0@, pid, task@, now_ms),
    {
        store.agent_set_status_at(group, session, "running", pid, now_ms);
        let ghost running = store@;
        let mut out: Vec<BusEvent> = Vec::new();
        let has_task = !task.is_empty();
        if has_task {
            let sent = bus::bus_enqueue(
                store,
                group,
                session,
                prime,
                session,
                AgentMsgKind::TurnInput,
                task.as_bytes_vec(),
                now_ms,
            );
            if let Ok(e) = sent {
                store.agent_msg_mark_consumed_at(group, session, e.seq, now_ms);
                out.push(e);
            }
        }
        let sup = Supervisor {
            group: group.to_owned(),
            session: session.to_owned(),
            prime: prime.to_owned(),
            idle_timeout_secs,
            trace,
            turn_active: has_task,
            last_activity_ms: at_ms,
            idle_notified: false,
        };
        assert(table::rows(out@) =~= started_pub(old(store)@, sup@, pid, task@, now_ms));
        (sup, out)
    }

    /// The turns that wait for the child, in the order in which they are to be written.
    pub fn waiting(&self, store: &Store) -> (r: Vec<Turn>)
        ensures
            table::rows(r@) == waiting_turns(store@, self@.group, self@.session),
    {
        let rows = store.agent_msg_pending(
            self.group.as_str(),
            self.session.as_str(),
            "turn_input",
        );
        let mut out: Vec<Turn> = Vec::new();
        let mut i: usize = 0;
        while i < rows.len()
            invariant
                i <= rows.len(),
                out@.len() == i,
                forall|j: int| 0 <= j < i ==> (#[trigger] out@[j])@ == turn_of(rows@[j]@),
            decreases rows.len() - i,
        {
            let reply = harness::from_utf8_lossy(rows[i].payload.as_slice());
            out.push(
                Turn {
                    session: rows[i].session_name.clone(),
                    seq: rows[i].seq,
                    line: harness::turn_line(reply.as_str()),
                },
            );
            i = i + 1;
        }
        assert(table::rows(out@) =~= waiting_turns(store@, self@.group, self@.session));
        out
    }

    /// Notes that a turn was written to the harness.
    pub fn fed(&mut self, store: &mut Store, session: &str, seq: u64, now_ms: u64, at_ms: u64)
        ensures
            final(self)@ == supervisor_fed(old(self)@, at_ms),
            final(store)@ == turn_fed(old(store)@, old(self)@, session@, seq, now_ms),
    {
        store.agent_msg_mark_consumed_at(self.group.as_str(), session, seq, now_ms);
        store.agent_set_status_at(
            self.group.as_str(),
            self.session.as_str(),
            "running",
            None,
            now_ms,
        );
        self.turn_active = true;
        self.last_activity_ms = at_ms;
        self.idle_notified = false;
    }

    /// Takes a report of the harness. A finished turn's output is on the bus before the child counts
    /// as waiting.
    pub fn report(&mut self, store: &mut Store, e: HarnessEvent, now_ms: u64, at_ms: u64) -> (r:
        Outcome)
        ensures
            final(self)@ == supervisor_after(old(self)@, e@, at_ms),
            final(store)@ == after_report(old(store)@, old(self)@, e@, now_ms),
            table::rows(r.published@) == report_pub(old(store)@, old(self)@, e@, now_ms),
            r.finished == (e is Exited),
    {
        match e {
            HarnessEvent::AssistantText(t) => {
                self.last_activity_ms = at_ms;
                self.idle_notified = false;
                let mut published: Vec<BusEvent> = Vec::new();
                if self.trace {
                    published = self.say(store, AgentMsgKind::Trace, t.as_str(), now_ms);
                }
                assert(table::rows(published@) =~= report_pub(
                    old(store)@,
                    old(self)@,
                    e@,
                    now_ms,
                ));
                Outcome { published, finished: false }
            },
            HarnessEvent::TurnComplete { result, .. } => {
                self.turn_active = false;
                self.last_activity_ms = at_ms;
                self.idle_notified = false;
                let published = self.say(
                    store,
                    AgentMsgKind::TurnOutput,
                    result.as_str(),
                    now_ms,
                );
                store.agent_set_status_at(
                    self.group.as_str(),
                    self.session.as_str(),
                    "awaiting_input",
                    None,
                    now_ms,
                );
                Outcome { published, finished: false }
            },
            HarnessEvent::Exited(code) => {
                let notice = exit_text(code);
                let published = self.finish(store, notice.as_str(), now_ms);
                Outcome { published, finished: true }
            },
        }
    }

    /// Sends a message of the child to the prime.
    fn say(&self, store: &mut Store, kind: AgentMsgKind, payload: &str, now_ms: u64) -> (r: Vec<
        BusEvent,
    >)
        ensures
            final(store)@ == child_said(
                old(store)@,
                self@,
                kind,
                text::utf8(payload@),
                now_ms,
            ),
            table::rows(r@) == child_said_pub(
                old(store)@,
                self@,
                kind,
                text::utf8(payload@),
                now_ms,
            ),
    {
        bus::bus_send(
            store,
            self.group.as_str(),
            self.session.as_str(),
            self.session.as_str(),
            self.prime.as_str(),
            kind,
            payload.as_bytes_vec(),
            now_ms,
        )
    }

    /// Marks the child as exited and tells the prime why.
    pub fn finish(&self, store: &mut Store, reason: &str, now_ms: u64) -> (r: Vec<BusEvent>)
        ensures
            final(store)@ == finished(old(store)@, self@, reason@, now_ms),
            table::rows(r@) == finished_pub(old(store)@, self@, reason@, now_ms),
    {
        store.agent_set_status_at(
            self.group.as_str(),
            self.session.as_str(),
            "exited",
            None,
            now_ms,
        );
        self.say(store, AgentMsgKind::Control, reason, now_ms)
    }

    /// Ends the supervision of a harness that could not be written to.
    pub fn write_failed(&self, store: &mut Store, now_ms: u64) -> (r: Vec<BusEvent>)
        ensures
            final(store)@ == after_failure(old(store)@, self@, true, now_ms),
            table::rows(r@) == failure_pub(old(store)@, self@, true, now_ms),
    {
        self.finish(store, "harness write failed", now_ms)
    }

    /// Ends the supervision of a harness that could not be read from.
    pub fn read_failed(&self, store: &mut Store, now_ms: u64) -> (r: Vec<BusEvent>)
        ensures
            final(store)@ == after_failure(old(store)@, self@, false, now_ms),
            table::rows(r@) == failure_pub(old(store)@, self@, false, now_ms),
    {
        self.finish(store, "harness read error", now_ms)
    }

    /// Notes that the supervisor is alive.
    pub fn heartbeat(&self, store: &mut Store, now_ms: u64)
        ensures
            final(store)@ == after_heartbeat(old(store)@, self@, now_ms),
    {
        store.agent_touch_at(self.group.as_str(), self.session.as_str(), now_ms);
    }

    /// Tells the prime, once, that the turn has been silent for longer than the session allows.
    pub fn check_idle(&mut self, store: &mut Store, now_ms: u64, at_ms: u64) -> (r: Vec<BusEvent>)
        ensures
            final(self)@ == idle_checked(old(self)@, at_ms),
            final(store)@ == after_idle_check(old(store)@, old(self)@, now_ms, at_ms),
            table::rows(r@) == idle_check_pub(old(store)@, old(self)@, now_ms, at_ms),
    {
        assert(table::rows(Seq::<BusEvent>::empty()) =~= Seq::<BusEventV>::empty());
        if !self.turn_active || self.idle_notified {
            return Vec::new();
        }
        let limit: u128 = match self.idle_timeout_secs {
            Some(t) => (t as u128) * 1000,
            None => return Vec::new(),
        };
        let idle: u64 = if at_ms >= self.last_activity_ms {
            at_ms - self.last_activity_ms
        } else {
            0
        };
        if (idle as u128) < limit {
            return Vec::new();
        }
        self.idle_notified = true;
        let notice = "turn idle for ".to_owned().concat(text::u64_text(idle / 1000).as_str()).concat(
            "s — harness still running",
        );
        self.say(store, AgentMsgKind::Control, notice.as_str(), now_ms)
    }
}

// ----- laws -----

/// The prime is told of a silence once: having been told, it is not told again until the child is
/// heard of or spoken to.
pub proof fn law_idle_notice_once(v: SupervisorV, at_ms: u64, later_ms: u64)
    ensures
        !idle_due(SupervisorV { idle_notified: true, ..v }, later_ms),
        v.idle_timeout_secs is None ==> !idle_due(v, at_ms),
        !v.turn_active ==> !idle_due(v, at_ms),
{
}

/// Whether a turn that was last heard of at one time is reported as silent at another.
pub open spec fn too_silent(timeout_secs: Option<u64>, heard_ms: u64, at_ms: u64) -> bool {
    timeout_secs is Some && at_ms >= heard_ms && at_ms - heard_ms >= timeout_secs->0 * 1000
}

/// Whatever the harness reports but its exit, the silence counts from that report, and the prime may be
/// told of a new one: it is told exactly where the turn goes on and nothing was heard since for as
/// long as the session allows. Whom and what the supervisor is for stays as it is.
pub proof fn law_silence_counts_from_the_last_report(
    v: SupervisorV,
    e: HarnessV,
    heard_ms: u64,
    at_ms: u64,
)
    requires
        !(e is Exited),
        heard_ms <= at_ms,
    ensures
        ({
            let w = supervisor_after(v, e, heard_ms);
            &&& silence_ms(w, at_ms) == at_ms - heard_ms
            &&& !w.idle_notified
            &&& idle_due(w, at_ms) <==> v.turn_active && e is AssistantText && too_silent(
                v.idle_timeout_secs,
                heard_ms,
                at_ms,
            )
            &&& w.turn_active == (v.turn_active && e is AssistantText)
            &&& w.group == v.group && w.session == v.session && w.prime == v.prime
            &&& w.idle_timeout_secs == v.idle_timeout_secs && w.trace == v.trace
        }),
{
}

/// A turn begins when it is fed, and the task is the first turn: the silence counts from then, and the
/// prime is told of it exactly where nothing was heard since for as long as the session allows.
pub proof fn law_silence_counts_from_the_last_turn(
    v: SupervisorV,
    group: Seq<char>,
    session: Seq<char>,
    prime: Seq<char>,
    task: Seq<char>,
    idle_timeout_secs: Option<u64>,
    trace: bool,
    heard_ms: u64,
    at_ms: u64,
)
    requires
        heard_ms <= at_ms,
    ensures
        ({
            let w = supervisor_fed(v, heard_ms);
            &&& idle_due(w, at_ms) <==> too_silent(v.idle_timeout_secs, heard_ms, at_ms)
            &&& w.turn_active && !w.idle_notified
            &&& w.group == v.group && w.session == v.session && w.prime == v.prime
            &&& w.idle_timeout_secs == v.idle_timeout_secs && w.trace == v.trace
        }),
        ({
            let w = supervisor_begun(
                group,
                session,
                prime,
                task,
                idle_timeout_secs,
                trace,
                heard_ms,
            );
            &&& idle_due(w, at_ms) <==> task.len() > 0 && too_silent(
                idle_timeout_secs,
                heard_ms,
                at_ms,
            )
            &&& w.group == group && w.session == session && w.prime == prime
            &&& w.idle_timeout_secs == idle_timeout_secs && w.trace == trace
        }),
{
}

/// Looking for silence tells the prime where it is due, in the child's name and with the number of
/// whole seconds, and then not again however long the silence goes on; where it is not due nothing
/// is said and nothing changes.
pub proof fn law_silence_is_told_once(
    s: StoreV,
    v: SupervisorV,
    now_ms: u64,
    at_ms: u64,
    later_ms: u64,
)
    requires
        s.retention > 0,
        bus::has_room(s, v.group, v.session),
    ensures
        ({
            let t = after_idle_check(s, v, now_ms, at_ms);
            let told = idle_check_pub(s, v, now_ms, at_ms);
            let w = idle_checked(v, at_ms);
            let due = v.turn_active && !v.idle_notified && too_silent(
                v.idle_timeout_secs,
                v.last_activity_ms,
                if at_ms >= v.last_activity_ms {
                    at_ms
                } else {
                    v.last_activity_ms
                },
            );
            if due {
                let secs = if at_ms >= v.last_activity_ms {
                    ((at_ms - v.last_activity_ms) / 1000) as nat
                } else {
                    0
                };
                &&& lookup_laws::said(s, t, t.bus.last())
                &&& lookup_laws::is_message(
                    t.bus.last(),
                    v.group,
                    v.session,
                    v.session,
                    v.prime,
                    "control"@,
                    text::utf8(
                        "turn idle for "@ + text::decimal_text(secs)
                            + "s — harness still running"@,
                    ),
                    now_ms,
                )
                &&& told.len() == 1
                &&& lookup_laws::tells(told[0], t.bus.last())
                &&& !idle_due(w, later_ms)
                &&& w == SupervisorV { idle_notified: true, ..v }
            } else {
                &&& t == s
                &&& told.len() == 0
                &&& w == v
            }
        }),
{
    if idle_due(v, at_ms) {
        lookup_laws::law_sent_is_said(
            s,
            v.group,
            v.session,
            v.session,
            v.prime,
            AgentMsgKind::Control,
            text::utf8(idle_notice(silence_ms(v, at_ms) / 1000)),
            now_ms,
        );
    }
}

/// What the child says in between reaches the prime as a trace where the session forwards it, and
/// nobody where it does not; either way nothing else changes.
pub proof fn law_text_is_forwarded_where_asked_for(
    s: StoreV,
    v: SupervisorV,
    t: Seq<char>,
    now_ms: u64,
)
    requires
        s.retention > 0,
        bus::has_room(s, v.group, v.session),
    ensures
        ({
            let after = after_report(s, v, HarnessV::AssistantText(t), now_ms);
            let told = report_pub(s, v, HarnessV::AssistantText(t), now_ms);
            if v.trace {
                &&& lookup_laws::said(s, after, after.bus.last())
                &&& lookup_laws::is_message(
                    after.bus.last(),
                    v.group,
                    v.session,
                    v.session,
                    v.prime,
                    "trace"@,
                    text::utf8(t),
                    now_ms,
                )
                &&& told.len() == 1
                &&& lookup_laws::tells(told[0], after.bus.last())
            } else {
                &&& after == s
                &&& told.len() == 0
            }
        }),
{
    lookup_laws::law_sent_is_said(
        s,
        v.group,
        v.session,
        v.session,
        v.prime,
        AgentMsgKind::Trace,
        text::utf8(t),
        now_ms,
    );
}

/// A finished turn's output reaches the prime, whether the turn went well or not, and the child waits
/// for input; the exit of a child is told to the prime with the exit code, and the child counts as
/// exited.
pub proof fn law_turns_and_exits_are_told(
    s: StoreV,
    v: SupervisorV,
    result: Seq<char>,
    is_error: bool,
    code: Option<i32>,
    now_ms: u64,
)
    requires
        s.retention > 0,
        bus::has_room(s, v.group, v.session),
    ensures
        ({
            let e = HarnessV::TurnComplete { result, is_error };
            let after = after_report(s, v, e, now_ms);
            let told = report_pub(s, v, e, now_ms);
            &&& lookup_laws::said(s, StoreV { agents: s.agents, ..after }, after.bus.last())
            &&& lookup_laws::is_message(
                after.bus.last(),
                v.group,
                v.session,
                v.session,
                v.prime,
                "turn_output"@,
                text::utf8(result),
                now_ms,
            )
            &&& lookup_laws::agent_set(
                s.agents,
                after.agents,
                v.group,
                v.session,
                "awaiting_input"@,
                None,
                now_ms,
            )
            &&& told.len() == 1
            &&& lookup_laws::tells(told[0], after.bus.last())
        }),
        ({
            let e = HarnessV::Exited(code);
            let after = after_report(s, v, e, now_ms);
            let told = report_pub(s, v, e, now_ms);
            &&& lookup_laws::said(s, StoreV { agents: s.agents, ..after }, after.bus.last())
            &&& lookup_laws::is_message(
                after.bus.last(),
                v.group,
                v.session,
                v.session,
                v.prime,
                "control"@,
                text::utf8(
                    match code {
                        Some(c) => "child exited (code Some("@ + text::signed_text(c as int)
                            + "))"@,
                        None => "child exited (code None)"@,
                    },
                ),
                now_ms,
            )
            &&& lookup_laws::agent_set(
                s.agents,
                after.agents,
                v.group,
                v.session,
                "exited"@,
                None,
                now_ms,
            )
            &&& told.len() == 1
            &&& lookup_laws::tells(told[0], after.bus.last())
        }),
{
    lookup_laws::law_sent_is_said(
        s,
        v.group,
        v.session,
        v.session,
        v.prime,
        AgentMsgKind::TurnOutput,
        text::utf8(result),
        now_ms,
    );
    let x = child_status(s, v, "exited"@, now_ms);
    assert(bus::has_room(x, v.group, v.session));
    lookup_laws::law_sent_is_said(
        x,
        v.group,
        v.session,
        v.session,
        v.prime,
        AgentMsgKind::Control,
        text::utf8(exit_notice(code)),
        now_ms,
    );
}

/// What waits for a child are the unread replies to it, and only those: each is written as it was
/// given, under its own place, so that feeding it marks that reply and no other as read and the
/// child as running.
pub proof fn law_waiting_turns_are_the_unread_replies(
    s: StoreV,
    v: SupervisorV,
    now_ms: u64,
    m: BusV,
    i: int,
    k: int,
)
    ensures
        ({
            let w = waiting_turns(s, v.group, v.session);
            &&& 0 <= i < w.len() ==> exists|x: BusV|
                {
                    &&& #[trigger] s.bus.contains(x)
                    &&& x.group_name == v.group
                    &&& x.to_agent == v.session
                    &&& x.kind == "turn_input"@
                    &&& x.consumed_at_ms is None
                    &&& w[i].session == x.session_name
                    &&& w[i].seq == x.seq
                    &&& w[i].line == harness::turn_text(harness::lossy_text(x.payload))
                }
            &&& s.bus.contains(m) && m.group_name == v.group && m.to_agent == v.session && m.kind
                == "turn_input"@ && m.consumed_at_ms is None ==> exists|n: int|
                0 <= n < w.len() && (#[trigger] w[n]).session == m.session_name && w[n].seq == m.seq
            &&& 0 <= i < w.len() ==> {
                let t = turn_fed(s, v, w[i].session, w[i].seq, now_ms);
                &&& lookup_laws::agent_set(
                    s.agents,
                    t.agents,
                    v.group,
                    v.session,
                    "running"@,
                    None,
                    now_ms,
                )
                &&& t == StoreV { agents: t.agents, bus: t.bus, ..s }
                &&& t.bus.len() == s.bus.len()
                &&& 0 <= k < s.bus.len() ==> t.bus[k] == if s.bus[k].group_name == v.group
                    && s.bus[k].session_name == w[i].session && s.bus[k].seq == w[i].seq {
                    BusV { consumed_at_ms: Some(now_ms), ..s.bus[k] }
                } else {
                    s.bus[k]
                }
            }
        }),
{
    let rows = store::pending_kind(s, v.group, v.session, "turn_input"@);
    let w = waiting_turns(s, v.group, v.session);
    lookup_laws::law_pending_kind_holds(s, v.group, v.session, "turn_input"@, m, 0, 0);
    if rows.contains(m) {
        let n = choose|n: int| 0 <= n < rows.len() && rows[n] == m;
        assert(w[n].session == m.session_name && w[n].seq == m.seq);
    }
    if 0 <= i < w.len() {
        assert(rows.contains(rows[i]));
        lookup_laws::law_pending_kind_holds(s, v.group, v.session, "turn_input"@, rows[i], 0, 0);
        assert(s.bus.contains(rows[i]));
    }
}

/// Once a harness was launched the child runs as the process that it is, and the task is on the bus as
/// what the prime said to the child, read already; without a task nothing is said.
pub proof fn law_launch_is_noted(
    s: StoreV,
    v: SupervisorV,
    pid: Option<i64>,
    task: Seq<char>,
    now_ms: u64,
)
    requires
        s.retention > 0,
        bus::has_room(s, v.group, v.session),
    ensures
        ({
            let t = started(s, v, pid, task, now_ms);
            let told = started_pub(s, v, pid, task, now_ms);
            &&& lookup_laws::agent_set(
                s.agents,
                t.agents,
                v.group,
                v.session,
                "running"@,
                pid,
                now_ms,
            )
            &&& t == StoreV { agents: t.agents, bus: t.bus, ..s }
            &&& task.len() == 0 ==> t.bus == s.bus && told.len() == 0
            &&& task.len() > 0 ==> {
                &&& t.bus.len() > 0
                &&& lookup_laws::is_message(
                    t.bus.last(),
                    v.group,
                    v.session,
                    v.prime,
                    v.session,
                    "turn_input"@,
                    text::utf8(task),
                    now_ms,
                )
                &&& t.bus.last().consumed_at_ms == Some(now_ms)
                &&& told.len() == 1
                &&& lookup_laws::tells(told[0], t.bus.last())
            }
        }),
{
    let running = store::status_set(s, v.group, v.session, "running"@, pid, now_ms);
    assert(bus::has_room(running, v.group, v.session));
    lookup_laws::law_sent_is_said(
        running,
        v.group,
        v.session,
        v.prime,
        v.session,
        AgentMsgKind::TurnInput,
        text::utf8(task),
        now_ms,
    );
}

/// Whatever wakes it, the supervisor feeds what waits; only a look at the clock shows that it is alive
/// and looks for silence, and it looks for silence after it has fed.
pub proof fn law_duties_are_in_order(w: Wake, i: int, j: int)
    ensures
        duties_of(w).contains(Duty::Feed),
        duties_of(w).contains(Duty::Heartbeat) == (w is Poll),
        duties_of(w).contains(Duty::CheckIdle) == (w is Poll),
        0 <= i < duties_of(w).len() && 0 <= j < duties_of(w).len() && duties_of(w)[i] == Duty::Feed
            && duties_of(w)[j] == Duty::CheckIdle ==> i < j,
        0 <= i < j < duties_of(w).len() ==> duties_of(w)[i] != duties_of(w)[j],
{
    match w {
        Wake::Poll => {
            assert(duties_of(w)[0] == Duty::Heartbeat);
            assert(duties_of(w)[1] == Duty::Feed);
            assert(duties_of(w)[2] == Duty::CheckIdle);
        },
        _ => {
            assert(duties_of(w)[0] == Duty::Feed);
        },
    }
}

/// Any activity begins the silence anew.
pub proof fn law_activity_resets_silence(v: SupervisorV, at_ms: u64, in_turn: bool)
    ensures
        silence_ms(active(v, at_ms, in_turn), at_ms) == 0,
        v.idle_timeout_secs matches Some(t) && t > 0 ==> !idle_due(active(v, at_ms, in_turn), at_ms),
{
}

/// A turn that was fed does not wait any more, so it is fed once; every other waiting turn waits on.
pub proof fn law_turn_fed_once(
    s: StoreV,
    v: SupervisorV,
    session: Seq<char>,
    seq: u64,
    now_ms: u64,
    m: BusV,
)
    ensures
        store::pending_kind(
            turn_fed(s, v, session, seq, now_ms),
            v.group,
            v.session,
            "turn_input"@,
        ).contains(m) == (store::pending_kind(s, v.group, v.session, "turn_input"@).contains(m)
            && !(m.session_name == session && m.seq == seq)),
{
    store_laws::law_consumed_is_read(
        s,
        v.group,
        session,
        seq,
        now_ms,
        v.session,
        "turn_input"@,
        m,
    );
    let t = store::consumed(s, v.group, session, seq, now_ms);
    assert(turn_fed(s, v, session, seq, now_ms).bus == t.bus);
    if store::pending_kind(s, v.group, v.session, "turn_input"@).contains(m) {
        let p = crate::queries::bus_pending(v.group, v.session, "turn_input"@);
        table::lemma_stable_order_members(s.bus.filter(p), crate::queries::bus_by_seq(), m);
        table::lemma_filter_contains(s.bus, p, m);
    }
}

/// Turns are fed in the order of their sequence numbers.
pub proof fn law_turns_in_order(s: StoreV, group: Seq<char>, child: Seq<char>)
    ensures
        forall|i: int, j: int|
            0 <= i < j < waiting_turns(s, group, child).len() ==> (#[trigger] waiting_turns(
                s,
                group,
                child,
            )[i]).seq <= (#[trigger] waiting_turns(s, group, child)[j]).seq,
{
    store_laws::law_bus_order(
        s,
        group,
        child,
        None,
        None,
        false,
        "turn_input"@,
        child,
        0,
        0,
    );
    let p = store::pending_kind(s, group, child, "turn_input"@);
    let w = waiting_turns(s, group, child);
    assert forall|i: int, j: int| 0 <= i < j < w.len() implies (#[trigger] w[i]).seq <= (
    #[trigger] w[j]).seq by {
        assert((crate::queries::bus_by_seq())(p[i], p[j]));
    }
}

/// The task that a child is launched with is not fed a second time: what waits for the child once it
/// was launched waited before.
pub proof fn law_task_is_not_fed_again(
    s: StoreV,
    v: SupervisorV,
    pid: Option<i64>,
    task: Seq<char>,
    now_ms: u64,
    m: BusV,
)
    requires
        store::pending_kind(started(s, v, pid, task, now_ms), v.group, v.session, "turn_input"@)
            .contains(m),
    ensures
        store::pending_kind(s, v.group, v.session, "turn_input"@).contains(m),
{
    let running = store::status_set(s, v.group, v.session, "running"@, pid, now_ms);
    let p = crate::queries::bus_pending(v.group, v.session, "turn_input"@);
    let le = crate::queries::bus_by_seq();
    let t = started(s, v, pid, task, now_ms);
    table::lemma_stable_order_members(t.bus.filter(p), le, m);
    table::lemma_filter_contains(t.bus, p, m);
    table::lemma_stable_order_members(s.bus.filter(p), le, m);
    table::lemma_filter_contains(s.bus, p, m);
    if task.len() > 0 && bus::has_room(running, v.group, v.session) {
        let r = bus::row_for(
            running,
            v.group,
            v.session,
            v.prime,
            v.session,
            AgentMsgKind::TurnInput,
            text::utf8(task),
            now_ms,
        );
        let mid = store::bus_appended(running, r);
        let k = choose|k: int| 0 <= k < t.bus.len() && t.bus[k] == m;
        assert(mid.bus[k] == m);
        let gone = crate::queries::bus_outlived(r.group_name, r.session_name, r.seq, s.retention);
        let keep = |a: BusV| !gone(a);
        assert(mid.bus.contains(m));
        table::lemma_filter_contains(running.bus.push(r), keep, m);
        let i = choose|i: int| 0 <= i < running.bus.push(r).len() && running.bus.push(r)[i] == m;
        if i == running.bus.len() {
            assert(m == r);
        } else {
            assert(s.bus[i] == m);
        }
    }
}

/// Whatever ends a child, the child counts as exited and the prime is told: the notice is in its
/// unread backlog.
pub proof fn law_finish_tells_the_prime(
    s: StoreV,
    v: SupervisorV,
    reason: Seq<char>,
    now_ms: u64,
)
    requires
        bus::has_room(s, v.group, v.session),
        s.retention > 0,
    ensures
        exists|m: BusV|
            {
                &&& m.payload == text::utf8(reason)
                &&& m.kind == "control"@
                &&& m.from_agent == v.session
                &&& #[trigger] store::backlog(
                    finished(s, v, reason, now_ms),
                    v.group,
                    v.prime,
                    None,
                    None,
                    true,
                ).contains(m)
            },
        forall|i: int|
            0 <= i < finished(s, v, reason, now_ms).agents.len() && (
            #[trigger] finished(s, v, reason, now_ms).agents[i]).group_name == v.group && finished(
                s,
                v,
                reason,
                now_ms,
            ).agents[i].name == v.session ==> finished(s, v, reason, now_ms).agents[i].status
                == "exited"@,
{
    let x = child_status(s, v, "exited"@, now_ms);
    assert(x.bus == s.bus);
    store_laws::law_bus_sent_is_unread(
        x,
        v.group,
        v.session,
        v.session,
        v.prime,
        "control"@,
        text::utf8(reason),
        now_ms,
    );
    let m = bus::row_for(
        x,
        v.group,
        v.session,
        v.session,
        v.prime,
        AgentMsgKind::Control,
        text::utf8(reason),
        now_ms,
    );
    assert(store::backlog(
        finished(s, v, reason, now_ms),
        v.group,
        v.prime,
        None,
        None,
        true,
    ).contains(m));
}

/// A sign of life is noted for the child that is supervised and for nobody else, and changes nothing
/// but when it was last seen.
pub proof fn law_sign_of_life_is_noted(s: StoreV, v: SupervisorV, now_ms: u64, i: int)
    ensures
        ({
            let t = after_heartbeat(s, v, now_ms);
            &&& t == StoreV { agents: t.agents, ..s }
            &&& t.agents.len() == s.agents.len()
            &&& 0 <= i < s.agents.len() ==> t.agents[i] == if s.agents[i].group_name == v.group
                && s.agents[i].name == v.session {
                AgentV { last_seen_ms: Some(now_ms), ..s.agents[i] }
            } else {
                s.agents[i]
            }
        }),
{
}

/// Whatever ends a child, the prime is told the reason in the child's name, and the child counts as
/// exited; a harness that fails is told as what it failed at. An exit changes nothing about what the
/// supervisor is for.
pub proof fn law_reason_for_the_end_is_told(
    s: StoreV,
    v: SupervisorV,
    writing: bool,
    code: Option<i32>,
    at_ms: u64,
    now_ms: u64,
)
    requires
        s.retention > 0,
        bus::has_room(s, v.group, v.session),
    ensures
        ({
            let t = after_failure(s, v, writing, now_ms);
            let told = failure_pub(s, v, writing, now_ms);
            let reason = if writing {
                "harness write failed"@
            } else {
                "harness read error"@
            };
            &&& lookup_laws::said(s, StoreV { agents: s.agents, ..t }, t.bus.last())
            &&& lookup_laws::is_message(
                t.bus.last(),
                v.group,
                v.session,
                v.session,
                v.prime,
                "control"@,
                text::utf8(reason),
                now_ms,
            )
            &&& lookup_laws::agent_set(
                s.agents,
                t.agents,
                v.group,
                v.session,
                "exited"@,
                None,
                now_ms,
            )
            &&& told.len() == 1
            &&& lookup_laws::tells(told[0], t.bus.last())
        }),
        supervisor_after(v, HarnessV::Exited(code), at_ms) == v,
{
    let x = child_status(s, v, "exited"@, now_ms);
    assert(bus::has_room(x, v.group, v.session));
    lookup_laws::law_sent_is_said(
        x,
        v.group,
        v.session,
        v.session,
        v.prime,
        AgentMsgKind::Control,
        text::utf8(failure_reason(writing)),
        now_ms,
    );
}

} // verus!
