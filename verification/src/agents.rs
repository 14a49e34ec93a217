//! How the daemon answers the requests of local agents: groups, sessions, the bus, and the spawning
//! and ending of children.

use vstd::prelude::*;

use crate::auth;
use crate::bus;
use crate::daemon;
use crate::daemon::BusReading;
use crate::daemon::BusReadingV;
use crate::daemon::DaemonState;
use crate::daemon::DaemonV;
use crate::daemon::LaunchOrder;
use crate::daemon::LaunchV;
use crate::daemon::Mark;
use crate::daemon::MarkV;
use crate::daemon::Moment;
use crate::daemon::MomentV;
use crate::daemon::Next;
use crate::daemon::NextV;
use crate::daemon::OrderV;
use crate::daemon::Reply;
use crate::daemon::ReplyV;
use crate::daemon::SpawnOrder;
use crate::harness;
use crate::harness::HarnessSpec;
use crate::harness::SpecV;
use crate::ipc;
use crate::ipc::AgentInfo;
use crate::ipc::AgentInfoV;
use crate::ipc::AgentMsgKind;
use crate::ipc::EventV;
use crate::ipc::FsMode;
use crate::ipc::GroupInfo;
use crate::ipc::GroupInfoV;
use crate::ipc::IpcErrorCode;
use crate::ipc::IpcEvent;
use crate::ipc::SessionInfo;
use crate::ipc::SessionInfoV;
use crate::ipc::WhoAmIInfo;
use crate::ipc::WhoAmIV;
use crate::paths;
use crate::prompt;
use crate::queries;
use crate::rows::AgentRow;
use crate::rows::AgentV;
use crate::rows::BusV;
use crate::rows::GroupV;
use crate::rows::SessionRow;
use crate::rows::SessionV;
use crate::store;
use crate::store::StoreV;
use crate::supervisor;
use crate::supervisor::Supervisor;
use crate::supervisor::SupervisorV;
use crate::table;
use crate::table::Record;
use crate::text;
use crate::workspace;
use crate::workspace::Workspace;
use crate::workspace::WorkspaceV;

verus! {

// ===== what the answers are =====

/// The agent that a bearer token belongs to.
pub open spec fn bearer(s: DaemonV, token: Seq<char>) -> Option<AgentV> {
    store::agent_by_hash(s.store, auth::token_digest(token))
}

/// The answer to a bearer token that is not known.
pub open spec fn unknown_bearer(s: DaemonV) -> ReplyV {
    daemon::refuse(s, IpcErrorCode::Unauthorized, "unknown or invalid wt token"@)
}

/// The prime agent of a new group.
pub open spec fn first_prime(group: Seq<char>, at: MomentV) -> AgentV {
    AgentV {
        group_name: group,
        name: "prime"@,
        token_hash: auth::token_digest(at.token),
        role: "prime"@,
        dir: None,
        pid: None,
        status: "running"@,
        created_at_ms: at.now_ms,
        last_seen_ms: None,
    }
}

/// The answer to the creation of a group.
pub open spec fn group_new_reply(s: DaemonV, name: Seq<char>, at: MomentV) -> ReplyV {
    if store::has_group(s.store, name) {
        daemon::refuse(s, IpcErrorCode::BadRequest, "group '"@ + name + "' already exists"@)
    } else {
        daemon::answer(
            daemon::with_store(
                s,
                store::agent_registered(
                    store::group_created(s.store, name, at.now_ms),
                    first_prime(name, at),
                ),
            ),
            EventV::GroupCreated { group: name, token: at.token },
        )
    }
}

/// A group as it is listed.
pub open spec fn group_info(s: StoreV, g: GroupV) -> GroupInfoV {
    GroupInfoV {
        name: g.name,
        created_at_ms: g.created_at_ms,
        session_count: store::sessions_of(s, g.name).len() as u32,
    }
}

/// The answer to a listing of groups.
pub open spec fn group_list_reply(s: DaemonV) -> ReplyV {
    ReplyV {
        state: s,
        events: table::stable_order(s.store.groups, queries::groups_by_age()).map_values(
            |g: GroupV| EventV::GroupListItem(group_info(s.store, g)),
        ).push(EventV::GroupListEnd),
        next: NextV::Done,
    }
}

/// The mode that a stored name stands for.
pub open spec fn mode_named(s: Seq<char>) -> FsMode {
    if s == "worktree"@ {
        FsMode::Worktree
    } else {
        FsMode::New
    }
}

/// The name that a mode is stored under.
pub open spec fn mode_name(m: FsMode) -> Seq<char> {
    match m {
        FsMode::Worktree => "worktree"@,
        FsMode::New => "new"@,
    }
}

/// A session as it is listed.
pub open spec fn session_info_of(x: SessionV, child_status: Option<Seq<char>>) -> SessionInfoV {
    SessionInfoV {
        group: x.group_name,
        name: x.name,
        child_agent: x.child_agent,
        fs_mode: mode_named(x.fs_mode),
        workspace_path: x.workspace_path,
        branch: x.branch,
        status: x.status,
        child_status,
    }
}

/// The status of an agent, if it is known.
pub open spec fn status_of(s: StoreV, group: Seq<char>, agent: Seq<char>) -> Option<Seq<char>> {
    match store::agent_of(s, group, agent) {
        Some(a) => Some(a.status),
        None => None,
    }
}

/// The answer to a listing of sessions.
pub open spec fn session_list_reply(s: DaemonV, group: Seq<char>) -> ReplyV {
    ReplyV {
        state: s,
        events: store::sessions_of(s.store, group).map_values(
            |x: SessionV|
                EventV::SessionListItem(
                    session_info_of(x, status_of(s.store, x.group_name, x.child_agent)),
                ),
        ).push(EventV::SessionListEnd),
        next: NextV::Done,
    }
}

/// An agent as it is listed.
pub open spec fn agent_info_of(a: AgentV) -> AgentInfoV {
    AgentInfoV {
        group: a.group_name,
        name: a.name,
        role: a.role,
        status: a.status,
        dir: a.dir,
        pid: a.pid,
    }
}

/// One agent, if there is one.
pub open spec fn found_agent(s: StoreV, group: Seq<char>, name: Seq<char>) -> Seq<AgentV> {
    match store::agent_of(s, group, name) {
        Some(a) => seq![a],
        None => Seq::empty(),
    }
}

/// The two agents of a session, as far as they are there.
pub open spec fn session_ends(s: StoreV, x: SessionV) -> Seq<AgentV> {
    found_agent(s, x.group_name, x.prime_agent) + found_agent(s, x.group_name, x.child_agent)
}

/// The agents of some sessions, session by session.
pub open spec fn ends_of(s: StoreV, rows: Seq<SessionV>) -> Seq<AgentV>
    decreases rows.len(),
{
    if rows.len() == 0 {
        Seq::empty()
    } else {
        ends_of(s, rows.drop_last()) + session_ends(s, rows.last())
    }
}

/// The answer to a listing of agents: those of a session, or of the sessions of a name in all groups,
/// or of a group, or all.
pub open spec fn agent_list_reply(
    s: DaemonV,
    group: Option<Seq<char>>,
    session: Option<Seq<char>>,
) -> ReplyV {
    let show = |rows: Seq<AgentV>|
        ReplyV {
            state: s,
            events: rows.map_values(|a: AgentV| EventV::AgentListItem(agent_info_of(a))).push(
                EventV::AgentListEnd,
            ),
            next: NextV::Done,
        };
    if group is Some && session is Some {
        match store::session_of(s.store, group->0, session->0) {
            Some(x) => show(session_ends(s.store, x)),
            None => daemon::refuse(s, IpcErrorCode::NotFound, "no such session"@),
        }
    } else if session is Some {
        show(ends_of(s.store, store::sessions_called(s.store, session->0)))
    } else {
        show(store::agents_of(s.store, group))
    }
}

/// The other endpoint of a session; `None` where the agent is no endpoint.
pub open spec fn other_end(x: SessionV, agent: Seq<char>) -> Option<Seq<char>> {
    if agent == x.prime_agent {
        Some(x.child_agent)
    } else if agent == x.child_agent {
        Some(x.prime_agent)
    } else {
        None
    }
}

/// The answer to a message into a session.
pub open spec fn agent_send_reply(
    s: DaemonV,
    token: Seq<char>,
    session: Seq<char>,
    kind: AgentMsgKind,
    payload: Seq<u8>,
    now_ms: u64,
) -> ReplyV {
    match bearer(s, token) {
        None => unknown_bearer(s),
        Some(me) => match store::session_of(s.store, me.group_name, session) {
            None => daemon::refuse(s, IpcErrorCode::NotFound, "no such session"@),
            Some(x) => match other_end(x, me.name) {
                None => daemon::refuse(
                    s,
                    IpcErrorCode::BadRequest,
                    "sender is not a participant of this session"@,
                ),
                Some(to) => if bus::has_room(s.store, me.group_name, session) {
                    daemon::answer_and(
                        daemon::with_store(
                            s,
                            bus::sent(
                                s.store,
                                me.group_name,
                                session,
                                me.name,
                                to,
                                kind,
                                payload,
                                now_ms,
                            ),
                        ),
                        EventV::Done,
                        NextV::Publish(
                            bus::published(
                                bus::row_for(
                                    s.store,
                                    me.group_name,
                                    session,
                                    me.name,
                                    to,
                                    kind,
                                    payload,
                                    now_ms,
                                ),
                                kind,
                            ),
                        ),
                    )
                } else {
                    daemon::refuse(s, IpcErrorCode::Internal, "sequence numbers exhausted"@)
                },
            },
        },
    }
}

/// The state once messages were marked as read, one after another, each at its own time.
pub open spec fn marked(
    s: StoreV,
    group: Seq<char>,
    marks: Seq<MarkV>,
    times: Seq<u64>,
) -> StoreV
    recommends
        times.len() == marks.len(),
    decreases marks.len(),
{
    if marks.len() == 0 {
        s
    } else {
        store::consumed(
            marked(s, group, marks.drop_last(), times.drop_last()),
            group,
            marks.last().session,
            marks.last().seq,
            times.last(),
        )
    }
}

/// The places of messages.
pub open spec fn marks_of(rows: Seq<BusV>) -> Seq<MarkV> {
    rows.map_values(|m: BusV| MarkV { session: m.session_name, seq: m.seq })
}

/// The messages that a reader is shown: the unread ones where reading marks them, else those after
/// the given time.
pub open spec fn shown_backlog(
    s: StoreV,
    me: AgentV,
    session: Option<Seq<char>>,
    since_ms: Option<u64>,
    consume: bool,
) -> Seq<BusV> {
    table::at_most(
        store::backlog(
            s,
            me.group_name,
            me.name,
            session,
            if consume {
                None
            } else {
                since_ms
            },
            consume,
        ),
        daemon::BACKLOG_LIMIT as int,
    )
}

/// The answer to a reader of the bus. A message counts as read once it was sent and marked.
pub open spec fn agent_recv_reply(
    s: DaemonV,
    token: Seq<char>,
    session: Option<Seq<char>>,
    since_ms: Option<u64>,
    follow: bool,
    consume: bool,
) -> ReplyV {
    match bearer(s, token) {
        None => unknown_bearer(s),
        Some(me) => {
            let rows = shown_backlog(s.store, me, session, since_ms, consume);
            ReplyV {
                state: s,
                events: rows.map_values(|m: BusV| bus::shown(m)).push(EventV::AgentBacklogEnd),
                next: NextV::ReadBus(
                    BusReadingV {
                        group: me.group_name,
                        agent: me.name,
                        session,
                        consume,
                        marks: if consume {
                            marks_of(rows)
                        } else {
                            Seq::empty()
                        },
                        follow,
                    },
                ),
            }
        },
    }
}

/// The answer to the question whom a bearer token belongs to.
pub open spec fn who_am_i_reply(s: DaemonV, token: Seq<char>) -> ReplyV {
    match bearer(s, token) {
        None => unknown_bearer(s),
        Some(me) => daemon::answer(
            s,
            EventV::WhoAmI(
                WhoAmIV {
                    group: me.group_name,
                    agent: me.name,
                    role: me.role,
                    session: if me.role == "child"@ {
                        Some(me.name)
                    } else {
                        None
                    },
                },
            ),
        ),
    }
}

/// The refusal of a session whose name is taken.
pub open spec fn session_taken(s: DaemonV, group: Seq<char>, session: Seq<char>, next: NextV) -> ReplyV {
    daemon::answer_and(
        s,
        ipc::failure(
            IpcErrorCode::BadRequest,
            "session '"@ + session + "' already exists in group '"@ + group + "'"@,
        ),
        next,
    )
}

/// The first answer to a spawn. `prime` is filled in with the agent that asks.
pub open spec fn spawn_reply(s: DaemonV, token: Seq<char>, o: OrderV) -> ReplyV {
    match bearer(s, token) {
        None => unknown_bearer(s),
        Some(me) => if me.group_name != o.group || me.role != "prime"@ {
            daemon::refuse(s, IpcErrorCode::Unauthorized, "spawn requires the group's prime token"@)
        } else if store::session_of(s.store, o.group, o.session) is Some || store::agent_of(
            s.store,
            o.group,
            o.session,
        ) is Some {
            session_taken(s, o.group, o.session, NextV::Done)
        } else {
            daemon::not_yet(s, NextV::Provision(OrderV { prime: me.name, ..o }))
        },
    }
}

/// The answer where a workspace could not be provisioned.
pub open spec fn not_provisioned_reply(s: DaemonV, reason: Seq<char>) -> ReplyV {
    daemon::refuse(s, IpcErrorCode::BadRequest, "workspace provisioning failed: "@ + reason)
}

/// The child of a spawned session. A coordinator is a prime itself.
pub open spec fn child_of(o: OrderV, at: MomentV) -> AgentV {
    AgentV {
        group_name: o.group,
        name: o.session,
        token_hash: auth::token_digest(at.token),
        role: if o.coordinator {
            "prime"@
        } else {
            "child"@
        },
        dir: Some(o.base_dir),
        pid: None,
        status: "starting"@,
        created_at_ms: at.now_ms,
        last_seen_ms: None,
    }
}

/// The row of a spawned session.
pub open spec fn session_of_order(o: OrderV, ws: WorkspaceV, at: MomentV) -> SessionV {
    SessionV {
        group_name: o.group,
        name: o.session,
        prime_agent: o.prime,
        child_agent: o.session,
        fs_mode: mode_name(o.fs_mode),
        base_dir: Some(o.base_dir),
        workspace_path: ws.path,
        branch: ws.branch,
        status: "active"@,
        created_at_ms: at.now_ms,
    }
}

/// What undoes the provisioning of a session.
pub open spec fn undo_of(o: OrderV, ws: WorkspaceV) -> NextV {
    NextV::Undo(workspace::teardown_of(ws.path, Some(o.base_dir), o.fs_mode, ws.branch, true))
}

/// The command line of a spawned harness: the one that was asked for, unless it is empty.
pub open spec fn order_argv(s: DaemonV, o: OrderV) -> Seq<Seq<char>> {
    if o.harness_argv matches Some(v) && v.len() > 0 {
        o.harness_argv->0
    } else {
        harness::argv_of(
            s.harness_cmd,
            s.harness_program,
            o.permission_mode,
            o.skip_permissions,
        )
    }
}

/// What a spawned harness is launched with.
pub open spec fn order_spec(s: DaemonV, o: OrderV, ws: WorkspaceV, token: Seq<char>) -> SpecV {
    SpecV {
        argv: order_argv(s, o),
        cwd: ws.path,
        env: seq![
            ("WT_TOKEN"@, token),
            ("WT_GROUP"@, o.group),
            ("WT_SESSION"@, o.session),
            ("WT_AGENT"@, o.session),
            ("WT_HOME"@, s.home),
        ],
        initial_prompt: if o.coordinator {
            prompt::coordinator_text(o.group, o.base_dir, o.prompt)
        } else {
            o.prompt
        },
        stderr_log: Some(paths::harness_log(s.home, o.group, o.session)),
    }
}

/// The answer once a workspace is there.
pub open spec fn provisioned_reply(s: DaemonV, o: OrderV, ws: WorkspaceV, at: MomentV) -> ReplyV {
    let child = child_of(o, at);
    let row = session_of_order(o, ws, at);
    if store::agent_refused(s.store, child) {
        session_taken(s, o.group, o.session, undo_of(o, ws))
    } else {
        let s1 = store::agent_registered(s.store, child);
        if store::has_session(s1, o.group, o.session) {
            session_taken(
                daemon::with_store(
                    s,
                    store::status_set(s1, o.group, o.session, "exited"@, None, at.now_ms),
                ),
                o.group,
                o.session,
                undo_of(o, ws),
            )
        } else {
            daemon::not_yet(
                daemon::with_store(s, store::session_created(s1, row)),
                NextV::Launch(
                    LaunchV {
                        order: o,
                        workspace: ws,
                        token: at.token,
                        spec: order_spec(s, o, ws, at.token),
                    },
                ),
            )
        }
    }
}

/// The supervisor of a spawned session.
pub open spec fn order_supervisor(l: LaunchV, at_ms: u64) -> SupervisorV {
    SupervisorV {
        group: l.order.group,
        session: l.order.session,
        prime: l.order.prime,
        idle_timeout_secs: l.order.idle_timeout_secs,
        trace: l.order.trace,
        turn_active: l.spec.initial_prompt.len() > 0,
        last_activity_ms: at_ms,
        idle_notified: false,
    }
}

/// The answer once a harness runs.
pub open spec fn launched_reply(
    s: DaemonV,
    l: LaunchV,
    pid: Option<i64>,
    now_ms: u64,
    at_ms: u64,
) -> ReplyV {
    let sup = order_supervisor(l, at_ms);
    daemon::answer_and(
        daemon::with_store(
            s,
            supervisor::started(s.store, sup, pid, l.spec.initial_prompt, now_ms),
        ),
        EventV::Spawned {
            group: l.order.group,
            session: l.order.session,
            token: l.token,
            workspace: l.workspace.path,
        },
        NextV::Supervise(
            sup,
            supervisor::started_pub(s.store, sup, pid, l.spec.initial_prompt, now_ms),
        ),
    )
}

/// The answer where a harness could not be launched.
pub open spec fn launch_failed_reply(s: DaemonV, l: LaunchV, reason: Seq<char>, now_ms: u64) -> ReplyV {
    daemon::answer_and(
        daemon::with_store(
            s,
            store::status_set(
                s.store,
                l.order.group,
                l.order.session,
                "exited"@,
                None,
                now_ms,
            ),
        ),
        ipc::failure(IpcErrorCode::Internal, "harness spawn failed: "@ + reason),
        undo_of(l.order, l.workspace),
    )
}

/// The answer to the ending of an agent.
pub open spec fn agent_kill_reply(s: DaemonV, token: Seq<char>, agent: Seq<char>, now_ms: u64) -> ReplyV {
    match bearer(s, token) {
        None => unknown_bearer(s),
        Some(me) => if me.role != "prime"@ {
            daemon::refuse(s, IpcErrorCode::Unauthorized, "only the prime may kill agents"@)
        } else if store::agent_of(s.store, me.group_name, agent) is None {
            daemon::refuse(s, IpcErrorCode::NotFound, "no such agent"@)
        } else {
            daemon::answer_and(
                daemon::with_store(
                    s,
                    store::session_closed(
                        store::status_set(
                            s.store,
                            me.group_name,
                            agent,
                            "exited"@,
                            None,
                            now_ms,
                        ),
                        me.group_name,
                        agent,
                    ),
                ),
                EventV::Done,
                NextV::Kill { group: me.group_name, agent },
            )
        },
    }
}

/// The answer to the closing of a session.
pub open spec fn session_close_reply(
    s: DaemonV,
    token: Seq<char>,
    session: Seq<char>,
    discard: bool,
    now_ms: u64,
) -> ReplyV {
    match bearer(s, token) {
        None => unknown_bearer(s),
        Some(me) => if me.role != "prime"@ {
            daemon::refuse(s, IpcErrorCode::Unauthorized, "only the prime may close sessions"@)
        } else {
            match store::session_of(s.store, me.group_name, session) {
                None => daemon::refuse(s, IpcErrorCode::NotFound, "no such session"@),
                Some(x) => daemon::answer_and(
                    daemon::with_store(
                        s,
                        store::session_closed(
                            store::status_set(
                                s.store,
                                me.group_name,
                                x.child_agent,
                                "exited"@,
                                None,
                                now_ms,
                            ),
                            me.group_name,
                            session,
                        ),
                    ),
                    EventV::Done,
                    NextV::Close {
                        group: me.group_name,
                        agent: x.child_agent,
                        steps: workspace::teardown_of(
                            x.workspace_path,
                            x.base_dir,
                            mode_named(x.fs_mode),
                            x.branch,
                            discard,
                        ),
                    },
                ),
            }
        },
    }
}

// ===== the answers =====

fn unauthorized() -> (r: Reply)
    ensures
        ipc::events(r.events@) == seq![
            ipc::failure(IpcErrorCode::Unauthorized, "unknown or invalid wt token"@),
        ],
        r.next@ == NextV::Done,
{
    daemon::refusal(IpcErrorCode::Unauthorized, "unknown or invalid wt token")
}

/// The mode that a stored name stands for.
pub fn fs_mode_named(s: &str) -> (r: FsMode)
    ensures
        r == mode_named(s@),
{
    if text::str_eq(s, "worktree") {
        FsMode::Worktree
    } else {
        FsMode::New
    }
}

/// The name that a mode is stored under.
pub fn fs_mode_name(m: FsMode) -> (r: &'static str)
    ensures
        r@ == mode_name(m),
{
    match m {
        FsMode::Worktree => "worktree",
        FsMode::New => "new",
    }
}

/// A session as it is listed.
pub fn session_info(s: SessionRow, child_status: Option<String>) -> (r: SessionInfo)
    ensures
        r@ == session_info_of(s@, text::opt_text(child_status)),
{
    let fs_mode = fs_mode_named(s.fs_mode.as_str());
    SessionInfo {
        group: s.group_name,
        name: s.name,
        child_agent: s.child_agent,
        fs_mode,
        workspace_path: s.workspace_path,
        branch: s.branch,
        status: s.status,
        child_status,
    }
}

/// An agent as it is listed.
pub fn agent_info(a: AgentRow) -> (r: AgentInfo)
    ensures
        r@ == agent_info_of(a@),
{
    AgentInfo {
        group: a.group_name,
        name: a.name,
        role: a.role,
        status: a.status,
        dir: a.dir,
        pid: a.pid,
    }
}

fn taken(group: &str, session: &str, next: Next) -> (r: Reply)
    ensures
        ipc::events(r.events@) == seq![
            ipc::failure(
                IpcErrorCode::BadRequest,
                "session '"@ + session@ + "' already exists in group '"@ + group@ + "'"@,
            ),
        ],
        r.next == next,
{
    let m = "session '".to_owned().concat(session).concat("' already exists in group '").concat(
        group,
    ).concat("'");
    daemon::one(ipc::err(IpcErrorCode::BadRequest, m.as_str()), next)
}

fn opt_ref(s: &Option<String>) -> (r: Option<&str>)
    ensures
        text::opt_str(r) == text::opt_text(*s),
{
    match s {
        Some(t) => Some(t.as_str()),
        None => None,
    }
}

fn undo(o: &SpawnOrder, ws: &Workspace) -> (r: Next)
    ensures
        r@ == undo_of(o@, ws@),
{
    Next::Undo(
        workspace::teardown(
            ws.path.as_str(),
            Some(o.base_dir.as_str()),
            o.fs_mode,
            opt_ref(&ws.branch),
            true,
        ),
    )
}

fn env_pair(v: &mut Vec<(String, String)>, key: &str, value: &str)
    ensures
        harness::pairs(final(v)@) == harness::pairs(old(v)@).push((key@, value@)),
{
    v.push((key.to_owned(), value.to_owned()));
    assert(harness::pairs(v@) =~= harness::pairs(old(v)@).push((key@, value@)));
}

impl DaemonState {
    /// The agent that a bearer token belongs to.
    pub fn resolve_agent(&self, token: &str) -> (r: Option<AgentRow>)
        ensures
            table::opt_row(r) == bearer(self@, token@),
    {
        let hash = auth::agent_token_hash(token);
        self.store.agent_by_token(hash.as_slice())
    }

    /// Creates a group and its prime agent, and hands out the prime's token.
    pub fn group_new(&mut self, name: &str, at: &Moment) -> (r: Reply)
        ensures
            daemon::replied(final(self)@, r) == group_new_reply(old(self)@, name@, at@),
    {
        if !self.store.group_create_at(name, at.now_ms) {
            let m = "group '".to_owned().concat(name).concat("' already exists");
            return daemon::refusal(IpcErrorCode::BadRequest, m.as_str());
        }
        let prime = AgentRow {
            group_name: name.to_owned(),
            name: "prime".to_owned(),
            token_hash: auth::agent_token_hash(at.token.as_str()),
            role: "prime".to_owned(),
            dir: None,
            pid: None,
            status: "running".to_owned(),
            created_at_ms: at.now_ms,
            last_seen_ms: None,
        };
        self.store.agent_register(&prime);
        daemon::one(
            IpcEvent::GroupCreated { group: name.to_owned(), token: at.token.clone() },
            Next::Done,
        )
    }

    /// Lists the groups.
    pub fn group_list(&self) -> (r: Reply)
        ensures
            daemon::replied(self@, r) == group_list_reply(self@),
    {
        let rows = self.store.group_list();
        let mut events: Vec<IpcEvent> = Vec::new();
        let mut i: usize = 0;
        while i < rows.len()
            invariant
                i <= rows.len(),
                events@.len() == i,
                forall|j: int|
                    0 <= j < i ==> (#[trigger] events@[j])@ == EventV::GroupListItem(
                        group_info(self@.store, rows@[j]@),
                    ),
            decreases rows.len() - i,
        {
            let g = &rows[i];
            let sessions = self.store.session_list(g.name.as_str());
            assert(sessions@.len() == table::rows(sessions@).len());
            events.push(
                IpcEvent::GroupListItem(
                    GroupInfo {
                        name: g.name.clone(),
                        created_at_ms: g.created_at_ms,
                        session_count: sessions.len() as u32,
                    },
                ),
            );
            i = i + 1;
        }
        assert(ipc::events(events@) =~= table::rows(rows@).map_values(
            |g: GroupV| EventV::GroupListItem(group_info(self@.store, g)),
        ));
        daemon::put_event(&mut events, IpcEvent::GroupListEnd);
        Reply { events, next: Next::Done }
    }

    /// Lists the sessions of a group.
    pub fn session_list(&self, group: &str) -> (r: Reply)
        ensures
            daemon::replied(self@, r) == session_list_reply(self@, group@),
    {
        let rows = self.store.session_list(group);
        let mut events: Vec<IpcEvent> = Vec::new();
        let mut i: usize = 0;
        while i < rows.len()
            invariant
                i <= rows.len(),
                events@.len() == i,
                forall|j: int|
                    0 <= j < i ==> (#[trigger] events@[j])@ == EventV::SessionListItem(
                        session_info_of(
                            rows@[j]@,
                            status_of(
                                self@.store,
                                rows@[j]@.group_name,
                                rows@[j]@.child_agent,
                            ),
                        ),
                    ),
            decreases rows.len() - i,
        {
            let x = &rows[i];
            let child_status = match self.store.agent_get(
                x.group_name.as_str(),
                x.child_agent.as_str(),
            ) {
                Some(a) => Some(a.status),
                None => None,
            };
            events.push(IpcEvent::SessionListItem(session_info(x.copy_row(), child_status)));
            i = i + 1;
        }
        assert(ipc::events(events@) =~= table::rows(rows@).map_values(
            |x: SessionV|
                EventV::SessionListItem(
                    session_info_of(x, status_of(self@.store, x.group_name, x.child_agent)),
                ),
        ));
        daemon::put_event(&mut events, IpcEvent::SessionListEnd);
        Reply { events, next: Next::Done }
    }

    fn show_agents(&self, rows: Vec<AgentRow>) -> (r: Reply)
        ensures
            ipc::events(r.events@) == table::rows(rows@).map_values(
                |a: AgentV| EventV::AgentListItem(agent_info_of(a)),
            ).push(EventV::AgentListEnd),
            r.next@ == NextV::Done,
    {
        let mut events: Vec<IpcEvent> = Vec::new();
        let mut i: usize = 0;
        while i < rows.len()
            invariant
                i <= rows.len(),
                events@.len() == i,
                forall|j: int|
                    0 <= j < i ==> (#[trigger] events@[j])@ == EventV::AgentListItem(
                        agent_info_of(rows@[j]@),
                    ),
            decreases rows.len() - i,
        {
            events.push(IpcEvent::AgentListItem(agent_info(rows[i].copy_row())));
            i = i + 1;
        }
        assert(ipc::events(events@) =~= table::rows(rows@).map_values(
            |a: AgentV| EventV::AgentListItem(agent_info_of(a)),
        ));
        daemon::put_event(&mut events, IpcEvent::AgentListEnd);
        Reply { events, next: Next::Done }
    }

    /// Puts the two agents of a session behind others, as far as they are there.
    fn put_ends(&self, v: &mut Vec<AgentRow>, x: &SessionRow)
        ensures
            table::rows(final(v)@) == table::rows(old(v)@) + session_ends(self@.store, x@),
    {
        let group = x.group_name.as_str();
        if let Some(a) = self.store.agent_get(group, x.prime_agent.as_str()) {
            v.push(a);
        }
        if let Some(a) = self.store.agent_get(group, x.child_agent.as_str()) {
            v.push(a);
        }
        assert(table::rows(v@) =~= table::rows(old(v)@) + session_ends(self@.store, x@));
    }

    /// Lists agents: those of a session, or of the sessions of a name in all groups, or of a group,
    /// or all.
    pub fn agent_list(&self, group: &Option<String>, session: &Option<String>) -> (r: Reply)
        ensures
            daemon::replied(self@, r) == agent_list_reply(
                self@,
                text::opt_text(*group),
                text::opt_text(*session),
            ),
    {
        if let (Some(g), Some(x)) = (group, session) {
            match self.store.session_get(g.as_str(), x.as_str()) {
                Some(row) => {
                    let mut v: Vec<AgentRow> = Vec::new();
                    assert(table::rows(v@) =~= Seq::empty());
                    self.put_ends(&mut v, &row);
                    assert(table::rows(v@) =~= session_ends(self@.store, row@));
                    self.show_agents(v)
                },
                None => daemon::refusal(IpcErrorCode::NotFound, "no such session"),
            }
        } else if let Some(x) = session {
            let rows = self.store.sessions_named(x.as_str());
            let ghost all = table::rows(rows@);
            let mut v: Vec<AgentRow> = Vec::new();
            let mut i: usize = 0;
            assert(all.take(0) =~= Seq::empty());
            assert(table::rows(v@) =~= Seq::empty());
            while i < rows.len()
                invariant
                    i <= rows.len(),
                    all == table::rows(rows@),
                    table::rows(v@) == ends_of(self@.store, all.take(i as int)),
                decreases rows.len() - i,
            {
                self.put_ends(&mut v, &rows[i]);
                assert(all.take(i + 1).drop_last() =~= all.take(i as int));
                i = i + 1;
            }
            assert(all.take(i as int) =~= all);
            self.show_agents(v)
        } else {
            let rows = self.store.agent_list(opt_ref(group));
            self.show_agents(rows)
        }
    }

    /// Sends a message of an agent to the other endpoint of a session.
    pub fn agent_send(
        &mut self,
        token: &str,
        session: &str,
        kind: AgentMsgKind,
        payload: &Vec<u8>,
        at: &Moment,
    ) -> (r: Reply)
        ensures
            daemon::replied(final(self)@, r) == agent_send_reply(
                old(self)@,
                token@,
                session@,
                kind,
                payload@,
                at@.now_ms,
            ),
    {
        let me = match self.resolve_agent(token) {
            Some(a) => a,
            None => return unauthorized(),
        };
        let x = match self.store.session_get(me.group_name.as_str(), session) {
            Some(x) => x,
            None => return daemon::refusal(IpcErrorCode::NotFound, "no such session"),
        };
        let to = if me.name == x.prime_agent {
            x.child_agent
        } else if me.name == x.child_agent {
            x.prime_agent
        } else {
            return daemon::refusal(
                IpcErrorCode::BadRequest,
                "sender is not a participant of this session",
            );
        };
        match bus::bus_enqueue(
            &mut self.store,
            me.group_name.as_str(),
            session,
            me.name.as_str(),
            to.as_str(),
            kind,
            text::bytes_copy(payload.as_slice()),
            at.now_ms,
        ) {
            Ok(e) => daemon::one(IpcEvent::Done, Next::Publish(e)),
            Err(e) => daemon::refusal(IpcErrorCode::Internal, e.to_string().as_str()),
        }
    }

    /// Shows an agent its backlog on the bus, and follows it where asked to. What is shown is marked
    /// as read with `followed`, message by message.
    pub fn agent_recv(
        &self,
        token: &str,
        session: &Option<String>,
        since_ms: Option<u64>,
        follow: bool,
        consume: bool,
    ) -> (r: Reply)
        ensures
            daemon::replied(self@, r) == agent_recv_reply(
                self@,
                token@,
                text::opt_text(*session),
                since_ms,
                follow,
                consume,
            ),
    {
        let me = match self.resolve_agent(token) {
            Some(a) => a,
            None => return unauthorized(),
        };
        let since: Option<u64> = if consume {
            None
        } else {
            since_ms
        };
        let rows = self.store.agent_msg_backlog(
            me.group_name.as_str(),
            me.name.as_str(),
            opt_ref(session),
            since,
            daemon::BACKLOG_LIMIT,
            consume,
        );
        let ghost all = table::rows(rows@);
        let mut events: Vec<IpcEvent> = Vec::new();
        let mut marks: Vec<Mark> = Vec::new();
        let mut i: usize = 0;
        while i < rows.len()
            invariant
                i <= rows.len(),
                all == table::rows(rows@),
                events@.len() == i,
                forall|j: int| 0 <= j < i ==> (#[trigger] events@[j])@ == bus::shown(rows@[j]@),
                marks@.len() == if consume {
                    i as int
                } else {
                    0
                },
                forall|j: int|
                    0 <= j < marks@.len() ==> (#[trigger] marks@[j])@ == marks_of(all)[j],
            decreases rows.len() - i,
        {
            let m = &rows[i];
            events.push(
                IpcEvent::AgentMsg {
                    session: m.session_name.clone(),
                    from_agent: m.from_agent.clone(),
                    kind: bus::kind_from_str(m.kind.as_str()),
                    payload: text::bytes_copy(m.payload.as_slice()),
                    ts_ms: m.enqueued_at_ms,
                },
            );
            if consume {
                marks.push(Mark { session: m.session_name.clone(), seq: m.seq });
            }
            i = i + 1;
        }
        assert(ipc::events(events@) =~= all.map_values(|m: BusV| bus::shown(m)));
        assert(table::rows(marks@) =~= if consume {
            marks_of(all)
        } else {
            Seq::empty()
        });
        daemon::put_event(&mut events, IpcEvent::AgentBacklogEnd);
        Reply {
            events,
            next: Next::ReadBus(
                BusReading {
                    group: me.group_name,
                    agent: me.name,
                    session: text::opt_text_copy(session),
                    consume,
                    marks,
                    follow,
                },
            ),
        }
    }

    /// Marks a message that a reader was sent as read.
    pub fn followed(&mut self, group: &str, session: &str, seq: u64, now_ms: u64)
        ensures
            final(self)@ == daemon::with_store(
                old(self)@,
                store::consumed(old(self)@.store, group@, session@, seq, now_ms),
            ),
    {
        self.store.agent_msg_mark_consumed_at(group, session, seq, now_ms);
    }

    /// Answers whom a bearer token belongs to.
    pub fn who_am_i(&self, token: &str) -> (r: Reply)
        ensures
            daemon::replied(self@, r) == who_am_i_reply(self@, token@),
    {
        let me = match self.resolve_agent(token) {
            Some(a) => a,
            None => return unauthorized(),
        };
        let session = if text::str_eq(me.role.as_str(), "child") {
            Some(me.name.clone())
        } else {
            None
        };
        daemon::one(
            IpcEvent::WhoAmIInfo(
                WhoAmIInfo { group: me.group_name, agent: me.name, role: me.role, session },
            ),
            Next::Done,
        )
    }

    /// Begins to spawn a session. Only the group's prime may, and the name has to be free.
    pub fn spawn(&self, token: &str, order: SpawnOrder) -> (r: Reply)
        ensures
            daemon::replied(self@, r) == spawn_reply(self@, token@, order@),
    {
        let me = match self.resolve_agent(token) {
            Some(a) => a,
            None => return unauthorized(),
        };
        if me.group_name != order.group || !text::str_eq(me.role.as_str(), "prime") {
            return daemon::refusal(
                IpcErrorCode::Unauthorized,
                "spawn requires the group's prime token",
            );
        }
        let group = order.group.as_str();
        let session = order.session.as_str();
        if self.store.session_get(group, session).is_some() || self.store.agent_get(
            group,
            session,
        ).is_some() {
            return taken(group, session, Next::Done);
        }
        let mut order = order;
        order.prime = me.name;
        daemon::later(Next::Provision(order))
    }

    /// Refuses a spawn whose workspace could not be provisioned.
    pub fn not_provisioned(&self, reason: &str) -> (r: Reply)
        ensures
            daemon::replied(self@, r) == not_provisioned_reply(self@, reason@),
    {
        let m = "workspace provisioning failed: ".to_owned().concat(reason);
        daemon::refusal(IpcErrorCode::BadRequest, m.as_str())
    }

    /// Goes on with a spawn once the workspace is there: registers the child and the session. Where
    /// either was registered meanwhile, the workspace is undone.
    pub fn provisioned(&mut self, order: SpawnOrder, ws: Workspace, at: &Moment) -> (r: Reply)
        ensures
            daemon::replied(final(self)@, r) == provisioned_reply(
                old(self)@,
                order@,
                ws@,
                at@,
            ),
    {
        let role = if order.coordinator {
            "prime"
        } else {
            "child"
        };
        let child = AgentRow {
            group_name: order.group.clone(),
            name: order.session.clone(),
            token_hash: auth::agent_token_hash(at.token.as_str()),
            role: role.to_owned(),
            dir: Some(order.base_dir.clone()),
            pid: None,
            status: "starting".to_owned(),
            created_at_ms: at.now_ms,
            last_seen_ms: None,
        };
        assert(child@ =~= child_of(order@, at@));
        if !self.store.agent_register(&child) {
            return taken(order.group.as_str(), order.session.as_str(), undo(&order, &ws));
        }
        let row = SessionRow {
            group_name: order.group.clone(),
            name: order.session.clone(),
            prime_agent: order.prime.clone(),
            child_agent: order.session.clone(),
            fs_mode: fs_mode_name(order.fs_mode).to_owned(),
            base_dir: Some(order.base_dir.clone()),
            workspace_path: ws.path.clone(),
            branch: text::opt_text_copy(&ws.branch),
            status: "active".to_owned(),
            created_at_ms: at.now_ms,
        };
        assert(row@ =~= session_of_order(order@, ws@, at@));
        if !self.store.session_create(&row) {
            self.store.agent_set_status_at(
                order.group.as_str(),
                order.session.as_str(),
                "exited",
                None,
                at.now_ms,
            );
            return taken(order.group.as_str(), order.session.as_str(), undo(&order, &ws));
        }
        let spec = self.harness_spec(&order, &ws, at.token.as_str());
        daemon::later(
            Next::Launch(
                LaunchOrder { order, workspace: ws, token: at.token.clone(), spec },
            ),
        )
    }

    /// What a spawned harness is launched with.
    fn harness_spec(&self, order: &SpawnOrder, ws: &Workspace, token: &str) -> (r: HarnessSpec)
        ensures
            r@ == order_spec(self@, order@, ws@, token@),
    {
        let asked = match &order.harness_argv {
            Some(v) => if v.len() > 0 {
                Some(text::texts_copy(v))
            } else {
                None
            },
            None => None,
        };
        let argv = match asked {
            Some(v) => v,
            None => harness::claude_argv(
                opt_ref(&self.harness_cmd),
                self.harness_program.as_str(),
                opt_ref(&order.permission_mode),
                order.skip_permissions,
            ),
        };
        assert(text::texts(argv@) == order_argv(self@, order@)) by {
            if let Some(v) = order.harness_argv {
                assert(text::texts(v@).len() == v@.len());
            }
        }
        let mut env: Vec<(String, String)> = Vec::new();
        env_pair(&mut env, "WT_TOKEN", token);
        env_pair(&mut env, "WT_GROUP", order.group.as_str());
        env_pair(&mut env, "WT_SESSION", order.session.as_str());
        env_pair(&mut env, "WT_AGENT", order.session.as_str());
        env_pair(&mut env, "WT_HOME", self.home.as_str());
        assert(harness::pairs(env@) =~= order_spec(self@, order@, ws@, token@).env);
        let initial_prompt = if order.coordinator {
            prompt::coordinator_prompt(
                order.group.as_str(),
                order.base_dir.as_str(),
                order.prompt.as_str(),
            )
        } else {
            order.prompt.clone()
        };
        HarnessSpec {
            argv,
            cwd: ws.path.clone(),
            env,
            initial_prompt,
            stderr_log: Some(
                paths::harness_log_path(
                    self.home.as_str(),
                    order.group.as_str(),
                    order.session.as_str(),
                ),
            ),
        }
    }

    /// Ends a spawn once the harness runs. `at_ms` is the time by the clock that silence is measured
    /// with.
    pub fn launched(&mut self, launch: &LaunchOrder, pid: Option<i64>, now_ms: u64, at_ms: u64) -> (r:
        Reply)
        ensures
            daemon::replied(final(self)@, r) == launched_reply(
                old(self)@,
                launch@,
                pid,
                now_ms,
                at_ms,
            ),
    {
        let (sup, published) = Supervisor::start(
            &mut self.store,
            launch.order.group.as_str(),
            launch.order.session.as_str(),
            launch.order.prime.as_str(),
            launch.spec.initial_prompt.as_str(),
            pid,
            launch.order.idle_timeout_secs,
            launch.order.trace,
            now_ms,
            at_ms,
        );
        daemon::one(
            IpcEvent::Spawned {
                group: launch.order.group.clone(),
                session: launch.order.session.clone(),
                token: launch.token.clone(),
                workspace: launch.workspace.path.clone(),
            },
            Next::Supervise(sup, published),
        )
    }

    /// Ends a spawn whose harness could not be launched: the child counts as exited and the
    /// workspace is undone.
    pub fn launch_failed(&mut self, launch: &LaunchOrder, reason: &str, now_ms: u64) -> (r: Reply)
        ensures
            daemon::replied(final(self)@, r) == launch_failed_reply(
                old(self)@,
                launch@,
                reason@,
                now_ms,
            ),
    {
        self.store.agent_set_status_at(
            launch.order.group.as_str(),
            launch.order.session.as_str(),
            "exited",
            None,
            now_ms,
        );
        let m = "harness spawn failed: ".to_owned().concat(reason);
        daemon::one(
            ipc::err(IpcErrorCode::Internal, m.as_str()),
            undo(&launch.order, &launch.workspace),
        )
    }

    /// Ends an agent. Only the prime of its group may.
    pub fn agent_kill(&mut self, token: &str, agent: &str, at: &Moment) -> (r: Reply)
        ensures
            daemon::replied(final(self)@, r) == agent_kill_reply(
                old(self)@,
                token@,
                agent@,
                at@.now_ms,
            ),
    {
        let me = match self.resolve_agent(token) {
            Some(a) => a,
            None => return unauthorized(),
        };
        if !text::str_eq(me.role.as_str(), "prime") {
            return daemon::refusal(
                IpcErrorCode::Unauthorized,
                "only the prime may kill agents",
            );
        }
        let group = me.group_name.as_str();
        if self.store.agent_get(group, agent).is_none() {
            return daemon::refusal(IpcErrorCode::NotFound, "no such agent");
        }
        self.store.agent_set_status_at(group, agent, "exited", None, at.now_ms);
        self.store.session_close(group, agent);
        daemon::one(
            IpcEvent::Done,
            Next::Kill { group: me.group_name.clone(), agent: agent.to_owned() },
        )
    }

    /// Closes a session: ends its child and tears its workspace down. Only the prime of its group may.
    pub fn session_close(&mut self, token: &str, session: &str, discard: bool, at: &Moment) -> (r:
        Reply)
        ensures
            daemon::replied(final(self)@, r) == session_close_reply(
                old(self)@,
                token@,
                session@,
                discard,
                at@.now_ms,
            ),
    {
        let me = match self.resolve_agent(token) {
            Some(a) => a,
            None => return unauthorized(),
        };
        if !text::str_eq(me.role.as_str(), "prime") {
            return daemon::refusal(
                IpcErrorCode::Unauthorized,
                "only the prime may close sessions",
            );
        }
        let group = me.group_name.as_str();
        let x = match self.store.session_get(group, session) {
            Some(x) => x,
            None => return daemon::refusal(IpcErrorCode::NotFound, "no such session"),
        };
        self.store.agent_set_status_at(group, x.child_agent.as_str(), "exited", None, at.now_ms);
        self.store.session_close(group, session);
        let steps = workspace::teardown(
            x.workspace_path.as_str(),
            opt_ref(&x.base_dir),
            fs_mode_named(x.fs_mode.as_str()),
            opt_ref(&x.branch),
            discard,
        );
        daemon::one(
            IpcEvent::Done,
            Next::Close { group: me.group_name.clone(), agent: x.child_agent, steps },
        )
    }
}

} // verus!
