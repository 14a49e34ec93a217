//! What the life of a session comes to: its spawning, its launch, and its end.

use vstd::prelude::*;

use crate::agents;
use crate::bus;
use crate::crypto;
use crate::daemon;
use crate::daemon::DaemonV;
use crate::daemon::LaunchV;
use crate::daemon::MomentV;
use crate::daemon::NextV;
use crate::daemon::OrderV;
use crate::dispatch;
use crate::harness;
use crate::ipc::EventV;
use crate::ipc::FsMode;
use crate::ipc::IpcErrorCode;
use crate::ipc::IpcRequest;
use crate::lookup_laws;
use crate::paths;
use crate::queries;
use crate::rows::AgentV;
use crate::rows::SessionV;
use crate::store;
use crate::store::StoreV;
use crate::supervisor;
use crate::table;
use crate::text;
use crate::workspace;
use crate::workspace::TeardownV;
use crate::workspace::WorkspaceV;

verus! {

/// Whether the answer is one refusal with the given code, with nothing done and nothing to be done.
pub open spec fn refuses(r: daemon::ReplyV, s: DaemonV, code: IpcErrorCode) -> bool {
    &&& r.state == s
    &&& r.events.len() == 1
    &&& r.events[0] matches EventV::Failed(e) && e.code == code
    &&& r.next is Done
}

/// Whether an agent or a session of a group has the given name.
pub open spec fn name_taken(s: StoreV, group: Seq<char>, name: Seq<char>) -> bool {
    ||| exists|i: int|
        0 <= i < s.sessions.len() && (#[trigger] s.sessions[i]).group_name == group
            && s.sessions[i].name == name
    ||| exists|i: int|
        0 <= i < s.agents.len() && (#[trigger] s.agents[i]).group_name == group
            && s.agents[i].name == name
}

/// A spawn that the prime of the group asks for under a free name leads to the provisioning of exactly
/// what was asked for, for the agent that asked; under a name that is taken it is refused. Nothing is
/// changed before the workspace is there.
pub proof fn law_spawn_is_ordered_as_asked(s: DaemonV, req: IpcRequest, at: MomentV, me: AgentV)
    requires
        req is Spawn,
        agents::bearer(s, req->Spawn_token@) == Some(me),
        me.role == "prime"@,
        me.group_name == req->Spawn_group@,
    ensures
        ({
            let r = dispatch::handled(s, req, at);
            if name_taken(s.store, req->Spawn_group@, req->Spawn_session@) {
                refuses(r, s, IpcErrorCode::BadRequest)
            } else {
                &&& r.state == s
                &&& r.events.len() == 0
                &&& r.next matches NextV::Provision(o) && {
                    &&& o.group == req->Spawn_group@
                    &&& o.session == req->Spawn_session@
                    &&& o.prime == me.name
                    &&& o.base_dir == req->base_dir@
                    &&& o.fs_mode == req->fs_mode
                    &&& o.prompt == req->prompt@
                    &&& o.harness_argv == daemon::opt_texts(req->harness_argv)
                    &&& o.idle_timeout_secs == req->idle_timeout_secs
                    &&& o.permission_mode == text::opt_text(req->permission_mode)
                    &&& o.skip_permissions == req->skip_permissions
                    &&& o.trace == req->trace
                    &&& o.coordinator == req->coordinator
                }
            }
        }),
{
    let group = req->Spawn_group@;
    let session = req->Spawn_session@;
    lookup_laws::law_session_is_found(s.store, group, session);
    lookup_laws::law_agent_is_found(s, group, session, req->Spawn_token@);
    if let Some(x) = store::session_of(s.store, group, session) {
        let i = choose|i: int| 0 <= i < s.store.sessions.len() && s.store.sessions[i] == x;
        assert(s.store.sessions[i].group_name == group);
    }
    if let Some(a) = store::agent_of(s.store, group, session) {
        let i = choose|i: int| 0 <= i < s.store.agents.len() && s.store.agents[i] == a;
        assert(s.store.agents[i].group_name == group);
    }
}

/// A child is launched in the workspace that was provisioned for it and nowhere else: that workspace
/// is where its harness runs, what its session records, and what the caller is told.
pub proof fn law_child_runs_in_its_workspace(
    s: DaemonV,
    o: OrderV,
    ws: WorkspaceV,
    at: MomentV,
    later: DaemonV,
    pid: Option<i64>,
    now_ms: u64,
    at_ms: u64,
)
    requires
        agents::provisioned_reply(s, o, ws, at).next is Launch,
    ensures
        ({
            let r = agents::provisioned_reply(s, o, ws, at);
            let l = r.next->Launch_0;
            let done = agents::launched_reply(later, l, pid, now_ms, at_ms);
            &&& l.spec.cwd == ws.path
            &&& l.workspace == ws
            &&& r.state.store.sessions.len() > 0
            &&& r.state.store.sessions.last().workspace_path == ws.path
            &&& r.state.store.sessions.last().branch == ws.branch
            &&& done.events.len() == 1
            &&& done.events[0] matches EventV::Spawned { workspace, .. } && workspace == ws.path
        }),
{
}

/// A child is launched as it was ordered: as itself, in its group, under the token that is its own, with
/// the install's directory, the task that it was given, and the command line that it was given where
/// one was. A coordinator is told how to work before the task.
pub proof fn law_child_is_launched_as_ordered(s: DaemonV, o: OrderV, ws: WorkspaceV, at: MomentV)
    requires
        agents::provisioned_reply(s, o, ws, at).next is Launch,
    ensures
        ({
            let r = agents::provisioned_reply(s, o, ws, at);
            let l = r.next->Launch_0;
            &&& r.events.len() == 0
            &&& l.order == o
            &&& l.token == at.token
            &&& l.spec.env.contains(("WT_TOKEN"@, at.token))
            &&& l.spec.env.contains(("WT_GROUP"@, o.group))
            &&& l.spec.env.contains(("WT_SESSION"@, o.session))
            &&& l.spec.env.contains(("WT_AGENT"@, o.session))
            &&& l.spec.env.contains(("WT_HOME"@, s.home))
            &&& l.spec.env.len() == 5
            &&& !o.coordinator ==> l.spec.initial_prompt == o.prompt
            &&& o.coordinator ==> l.spec.initial_prompt.len() > o.prompt.len()
                && l.spec.initial_prompt.skip(
                l.spec.initial_prompt.len() - o.prompt.len(),
            ) == o.prompt
            &&& o.harness_argv is Some && o.harness_argv->0.len() > 0 ==> l.spec.argv
                == o.harness_argv->0
            &&& !(o.harness_argv is Some && o.harness_argv->0.len() > 0) ==> l.spec.argv
                == harness::argv_of(
                s.harness_cmd,
                s.harness_program,
                o.permission_mode,
                o.skip_permissions,
            )
            &&& l.spec.stderr_log == Some(paths::harness_log(s.home, o.group, o.session))
        }),
{
    let l = agents::provisioned_reply(s, o, ws, at).next->Launch_0;
    assert(l.spec.env[0] == ("WT_TOKEN"@, at.token));
    assert(l.spec.env[1] == ("WT_GROUP"@, o.group));
    assert(l.spec.env[2] == ("WT_SESSION"@, o.session));
    assert(l.spec.env[3] == ("WT_AGENT"@, o.session));
    assert(l.spec.env[4] == ("WT_HOME"@, s.home));
    reveal_strlit("You are the PRIME COORDINATOR of wt group `");
    assert(crate::prompt::OPENING@.len() > 0);
    if o.coordinator {
        let p = l.spec.initial_prompt;
        assert(p.skip(p.len() - o.prompt.len()) =~= o.prompt);
    }
}

/// Once its workspace is there a session is registered between the agent that asked for it and its
/// child, which the fresh token belongs to, and all rows that were there stay as they were. That
/// happens exactly where neither the name nor the token is taken; else the workspace is undone and
/// the spawn refused, and a child that was registered already counts as exited.
pub proof fn law_child_is_registered(s: DaemonV, o: OrderV, ws: WorkspaceV, at: MomentV)
    ensures
        ({
            let r = agents::provisioned_reply(s, o, ws, at);
            let hash = crypto::blake3_digest(text::utf8(text::trimmed(at.token)));
            let hash_taken = exists|i: int|
                0 <= i < s.store.agents.len() && (#[trigger] s.store.agents[i]).token_hash == hash;
            if name_taken(s.store, o.group, o.session) || hash_taken {
                &&& r.next is Undo
                &&& r.events.len() == 1
                &&& r.events[0] matches EventV::Failed(e) && e.code is BadRequest
                &&& r.state == daemon::with_store(s, r.state.store)
                &&& r.state.store == (StoreV { agents: r.state.store.agents, ..s.store })
                &&& r.state.store.agents == s.store.agents || {
                    let a = r.state.store.agents.last();
                    &&& r.state.store.agents == s.store.agents.push(a)
                    &&& a.group_name == o.group && a.name == o.session && a.status == "exited"@
                }
            } else {
                let a = r.state.store.agents.last();
                let x = r.state.store.sessions.last();
                &&& r.next is Launch
                &&& r.state == daemon::with_store(s, r.state.store)
                &&& r.state.store == (StoreV {
                    agents: s.store.agents.push(a),
                    sessions: s.store.sessions.push(x),
                    ..s.store
                })
                &&& a.group_name == o.group && a.name == o.session && a.token_hash == hash
                &&& a.role == if o.coordinator {
                    "prime"@
                } else {
                    "child"@
                }
                &&& a.dir == Some(o.base_dir) && a.pid is None && a.status == "starting"@
                &&& a.created_at_ms == at.now_ms && a.last_seen_ms is None
                &&& x.group_name == o.group && x.name == o.session
                &&& x.prime_agent == o.prime && x.child_agent == o.session
                &&& x.fs_mode == match o.fs_mode {
                    FsMode::Worktree => "worktree"@,
                    FsMode::New => "new"@,
                }
                &&& x.base_dir == Some(o.base_dir) && x.workspace_path == ws.path
                &&& x.branch == ws.branch && x.status == "active"@ && x.created_at_ms == at.now_ms
            }
        }),
{
    let r = agents::provisioned_reply(s, o, ws, at);
    let child = agents::child_of(o, at);
    let p = queries::agent_in_the_way(child.group_name, child.name, child.token_hash);
    if table::any_of(s.store.agents, p) {
        let i = choose|i: int| 0 <= i < s.store.agents.len() && p(#[trigger] s.store.agents[i]);
        assert(s.store.agents[i].group_name == o.group || s.store.agents[i].token_hash
            == child.token_hash);
    } else {
        assert forall|i: int| 0 <= i < s.store.agents.len() implies !((
        #[trigger] s.store.agents[i]).group_name == o.group && s.store.agents[i].name == o.session)
            && s.store.agents[i].token_hash != child.token_hash by {
            assert(!p(s.store.agents[i]));
        }
        let q = queries::session_named(o.group, o.session);
        if table::any_of(s.store.sessions, q) {
            let i = choose|i: int|
                0 <= i < s.store.sessions.len() && q(#[trigger] s.store.sessions[i]);
            assert(s.store.sessions[i].group_name == o.group);
        } else {
            assert forall|i: int| 0 <= i < s.store.sessions.len() implies !((
            #[trigger] s.store.sessions[i]).group_name == o.group && s.store.sessions[i].name
                == o.session) by {
                assert(!q(s.store.sessions[i]));
            }
        }
    }
}

/// Whether the steps tear down one workspace as its session asks for: a worktree is taken out of the
/// repository that it belongs to, and where the workspace is discarded its directory goes last.
pub open spec fn tears_down(
    steps: Seq<TeardownV>,
    path: Seq<char>,
    base_dir: Option<Seq<char>>,
    worktree: bool,
    branch: Option<Seq<char>>,
    discard: bool,
) -> bool {
    &&& worktree && base_dir is Some ==> {
        &&& steps.len() > 0
        &&& workspace::removes_worktree(steps[0])
        &&& steps[0] matches TeardownV::Run(c) && c[2] == base_dir->0 && c.last() == path
        &&& discard && branch is Some ==> {
            &&& steps.len() == 3
            &&& workspace::deletes_branch(steps[1])
            &&& steps[1]->Run_0[2] == base_dir->0
            &&& steps[1]->Run_0.last() == branch->0
        }
    }
    &&& discard ==> {
        &&& steps.len() > 0
        &&& steps.last() matches TeardownV::RemoveDir { path: p, .. } && p == path
    }
    &&& !discard ==> forall|i: int|
        0 <= i < steps.len() ==> workspace::removes_worktree(#[trigger] steps[i])
    &&& !discard && !worktree ==> steps.len() == 0
}

proof fn lemma_tears_down(
    path: Seq<char>,
    base_dir: Option<Seq<char>>,
    mode: FsMode,
    branch: Option<Seq<char>>,
    discard: bool,
)
    ensures
        tears_down(
            workspace::teardown_of(path, base_dir, mode, branch, discard),
            path,
            base_dir,
            mode is Worktree,
            branch,
            discard,
        ),
{
    workspace::law_teardown_destroys_only_what_is_discarded(
        path,
        base_dir,
        mode,
        branch,
        discard,
        1,
    );
    if base_dir is Some {
        workspace::law_teardown_removes_the_worktree(path, base_dir->0, branch, discard);
    }
}

/// Where a spawn comes to nothing, what is undone is the workspace that was made for it, all of it: the
/// worktree in the base directory's repository, its branch, and its directory. A child whose harness
/// could not be launched counts as exited, and the caller is told why.
pub proof fn law_undoing_a_spawn_removes_its_workspace(
    s: DaemonV,
    o: OrderV,
    ws: WorkspaceV,
    at: MomentV,
    l: LaunchV,
    reason: Seq<char>,
    now_ms: u64,
)
    ensures
        agents::provisioned_reply(s, o, ws, at).next matches NextV::Undo(steps) ==> tears_down(
            steps,
            ws.path,
            Some(o.base_dir),
            o.fs_mode is Worktree,
            ws.branch,
            true,
        ),
        ({
            let r = agents::launch_failed_reply(s, l, reason, now_ms);
            &&& r.next matches NextV::Undo(steps) && tears_down(
                steps,
                l.workspace.path,
                Some(l.order.base_dir),
                l.order.fs_mode is Worktree,
                l.workspace.branch,
                true,
            )
            &&& r.events.len() == 1
            &&& r.events[0] matches EventV::Failed(e) && e.code is Internal && e.message
                == "harness spawn failed: "@ + reason
            &&& r.state == daemon::with_store(s, r.state.store)
            &&& r.state.store == (StoreV { agents: r.state.store.agents, ..s.store })
            &&& lookup_laws::agent_set(
                s.store.agents,
                r.state.store.agents,
                l.order.group,
                l.order.session,
                "exited"@,
                None,
                now_ms,
            )
        }),
{
    lemma_tears_down(ws.path, Some(o.base_dir), o.fs_mode, ws.branch, true);
    lemma_tears_down(
        l.workspace.path,
        Some(l.order.base_dir),
        l.order.fs_mode,
        l.workspace.branch,
        true,
    );
}

/// Once a harness runs, it is supervised for the session and the prime that it was ordered for, with
/// the limits that were ordered, and the caller is told the session, its token and its workspace. The
/// child is noted as running, and the task that it was launched with is on the bus.
pub proof fn law_launched_child_is_supervised(
    s: DaemonV,
    l: LaunchV,
    pid: Option<i64>,
    now_ms: u64,
    at_ms: u64,
)
    requires
        s.store.retention > 0,
        bus::has_room(s.store, l.order.group, l.order.session),
    ensures
        ({
            let r = agents::launched_reply(s, l, pid, now_ms, at_ms);
            let task = l.spec.initial_prompt;
            &&& r.next matches NextV::Supervise(v, told) && {
                &&& v.group == l.order.group
                &&& v.session == l.order.session
                &&& v.prime == l.order.prime
                &&& v.idle_timeout_secs == l.order.idle_timeout_secs
                &&& v.trace == l.order.trace
                &&& v.turn_active == (task.len() > 0)
                &&& v.last_activity_ms == at_ms
                &&& !v.idle_notified
                &&& told.len() == if task.len() > 0 {
                    1int
                } else {
                    0
                }
                &&& task.len() > 0 ==> lookup_laws::tells(told[0], r.state.store.bus.last())
            }
            &&& r.events == seq![
                EventV::Spawned {
                    group: l.order.group,
                    session: l.order.session,
                    token: l.token,
                    workspace: l.workspace.path,
                },
            ]
            &&& r.state == daemon::with_store(s, r.state.store)
            &&& lookup_laws::agent_set(
                s.store.agents,
                r.state.store.agents,
                l.order.group,
                l.order.session,
                "running"@,
                pid,
                now_ms,
            )
            &&& task.len() > 0 ==> lookup_laws::is_message(
                r.state.store.bus.last(),
                l.order.group,
                l.order.session,
                l.order.prime,
                l.order.session,
                "turn_input"@,
                text::utf8(task),
                now_ms,
            ) && r.state.store.bus.last().consumed_at_ms is Some
            &&& task.len() == 0 ==> r.state.store.bus == s.store.bus
        }),
{
    supervisor::law_launch_is_noted(
        s.store,
        agents::order_supervisor(l, at_ms),
        pid,
        l.spec.initial_prompt,
        now_ms,
    );
}

/// Closing a session ends its child and tears its workspace down as the session recorded it, keeping
/// the work unless it is discarded. The session counts as closed and the child as exited, and nothing
/// else changes. A session that is not there is not found.
pub proof fn law_session_is_closed_as_recorded(
    s: DaemonV,
    token: Seq<char>,
    session: Seq<char>,
    discard: bool,
    now_ms: u64,
    me: AgentV,
)
    requires
        agents::bearer(s, token) == Some(me),
        me.role == "prime"@,
    ensures
        ({
            let r = agents::session_close_reply(s, token, session, discard, now_ms);
            let there = exists|i: int|
                0 <= i < s.store.sessions.len() && (#[trigger] s.store.sessions[i]).group_name
                    == me.group_name && s.store.sessions[i].name == session;
            &&& !there ==> refuses(r, s, IpcErrorCode::NotFound)
            &&& there ==> {
                &&& r.events == seq![EventV::Done]
                &&& r.next matches NextV::Close { group, agent, steps } && group == me.group_name
                    && exists|x: SessionV| #[trigger]
                    s.store.sessions.contains(x) && x.group_name == me.group_name && x.name
                        == session && x.child_agent == agent && tears_down(
                        steps,
                        x.workspace_path,
                        x.base_dir,
                        x.fs_mode == "worktree"@,
                        x.branch,
                        discard,
                    ) && lookup_laws::agent_set(
                        s.store.agents,
                        r.state.store.agents,
                        me.group_name,
                        x.child_agent,
                        "exited"@,
                        None,
                        now_ms,
                    )
                &&& r.state == daemon::with_store(s, r.state.store)
                &&& r.state.store == (StoreV {
                    agents: r.state.store.agents,
                    sessions: r.state.store.sessions,
                    ..s.store
                })
                &&& sessions_shut(
                    s.store.sessions,
                    r.state.store.sessions,
                    me.group_name,
                    session,
                )
            }
        }),
{
    lookup_laws::law_session_is_found(s.store, me.group_name, session);
    if let Some(x) = store::session_of(s.store, me.group_name, session) {
        let i = choose|i: int| 0 <= i < s.store.sessions.len() && s.store.sessions[i] == x;
        assert(s.store.sessions[i].group_name == me.group_name);
        lemma_tears_down(
            x.workspace_path,
            x.base_dir,
            agents::mode_named(x.fs_mode),
            x.branch,
            discard,
        );
        assert(s.store.sessions.contains(x));
    }
}

/// Whether the sessions of a group and name are closed and everything else about the sessions is as it
/// was.
pub open spec fn sessions_shut(
    before: Seq<SessionV>,
    after: Seq<SessionV>,
    group: Seq<char>,
    name: Seq<char>,
) -> bool {
    &&& after.len() == before.len()
    &&& forall|i: int|
        0 <= i < before.len() ==> #[trigger] after[i] == if before[i].group_name == group
            && before[i].name == name {
            SessionV { status: "closed"@, ..before[i] }
        } else {
            before[i]
        }
}

/// Killing an agent ends that agent, of the prime's own group, and closes the session of its name; its
/// workspace is left alone, and nothing else changes. An agent that is not there is not found.
pub proof fn law_agent_is_killed(
    s: DaemonV,
    token: Seq<char>,
    agent: Seq<char>,
    now_ms: u64,
    me: AgentV,
)
    requires
        agents::bearer(s, token) == Some(me),
        me.role == "prime"@,
    ensures
        ({
            let r = agents::agent_kill_reply(s, token, agent, now_ms);
            let there = exists|i: int|
                0 <= i < s.store.agents.len() && (#[trigger] s.store.agents[i]).group_name
                    == me.group_name && s.store.agents[i].name == agent;
            &&& !there ==> refuses(r, s, IpcErrorCode::NotFound)
            &&& there ==> {
                &&& r.events == seq![EventV::Done]
                &&& r.next == NextV::Kill { group: me.group_name, agent }
                &&& r.state == daemon::with_store(s, r.state.store)
                &&& r.state.store == (StoreV {
                    agents: r.state.store.agents,
                    sessions: r.state.store.sessions,
                    ..s.store
                })
                &&& lookup_laws::agent_set(
                    s.store.agents,
                    r.state.store.agents,
                    me.group_name,
                    agent,
                    "exited"@,
                    None,
                    now_ms,
                )
                &&& sessions_shut(
                    s.store.sessions,
                    r.state.store.sessions,
                    me.group_name,
                    agent,
                )
            }
        }),
{
    lookup_laws::law_agent_is_found(s, me.group_name, agent, token);
    if let Some(a) = store::agent_of(s.store, me.group_name, agent) {
        let i = choose|i: int| 0 <= i < s.store.agents.len() && s.store.agents[i] == a;
        assert(s.store.agents[i].group_name == me.group_name);
    }
}

// ----- groups and listings -----

/// A group is made under a name that no group has, with a prime that the token handed out belongs to;
/// else it is refused. All that was there stays as it was.
pub proof fn law_group_is_made(s: DaemonV, name: Seq<char>, at: MomentV)
    requires
        forall|i: int|
            0 <= i < s.store.agents.len() ==> !((#[trigger] s.store.agents[i]).group_name == name
                && s.store.agents[i].name == "prime"@) && s.store.agents[i].token_hash
                != crypto::blake3_digest(text::utf8(text::trimmed(at.token))),
    ensures
        ({
            let r = agents::group_new_reply(s, name, at);
            let taken = exists|i: int|
                0 <= i < s.store.groups.len() && (#[trigger] s.store.groups[i]).name == name;
            if taken {
                refuses(r, s, IpcErrorCode::BadRequest)
            } else {
                let g = r.state.store.groups.last();
                let a = r.state.store.agents.last();
                &&& r.events == seq![EventV::GroupCreated { group: name, token: at.token }]
                &&& r.next is Done
                &&& r.state == daemon::with_store(s, r.state.store)
                &&& r.state.store == (StoreV {
                    groups: s.store.groups.push(g),
                    agents: s.store.agents.push(a),
                    ..s.store
                })
                &&& g.name == name && g.created_at_ms == at.now_ms
                &&& a.group_name == name && a.name == "prime"@ && a.role == "prime"@
                &&& a.token_hash == crypto::blake3_digest(text::utf8(text::trimmed(at.token)))
                &&& a.status == "running"@ && a.dir is None && a.pid is None
                &&& a.created_at_ms == at.now_ms && a.last_seen_ms is None
            }
        }),
{
    let q = queries::group_named(name);
    if table::any_of(s.store.groups, q) {
        let i = choose|i: int| 0 <= i < s.store.groups.len() && q(#[trigger] s.store.groups[i]);
        assert(s.store.groups[i].name == name);
    } else {
        assert forall|i: int| 0 <= i < s.store.groups.len() implies (
        #[trigger] s.store.groups[i]).name != name by {
            assert(!q(s.store.groups[i]));
        }
        let a = agents::first_prime(name, at);
        let p = queries::agent_in_the_way(a.group_name, a.name, a.token_hash);
        assert(!table::any_of(s.store.agents, p));
    }
}

/// Whether an event lists a group as it is recorded.
pub open spec fn lists_group(e: EventV, g: crate::rows::GroupV) -> bool {
    e matches EventV::GroupListItem(x) && x.name == g.name && x.created_at_ms == g.created_at_ms
}

/// A listing of groups shows every group once, with the number of sessions that it has, oldest first.
pub proof fn law_groups_are_listed(s: DaemonV, g: crate::rows::GroupV, i: int, j: int)
    ensures
        ({
            let r = agents::group_list_reply(s);
            let n = s.store.groups.len() as int;
            &&& r.state == s && r.next is Done
            &&& r.events.len() == n + 1
            &&& r.events[n] is GroupListEnd
            &&& s.store.groups.contains(g) ==> exists|k: int|
                0 <= k < n && #[trigger] lists_group(r.events[k], g)
            &&& 0 <= i < n ==> (r.events[i] matches EventV::GroupListItem(x) && x.session_count
                == s.store.sessions.filter(
                |y: SessionV| y.group_name == x.name,
            ).len() as u32)
            &&& 0 <= i < j < n ==> r.events[i]->GroupListItem_0.created_at_ms
                <= r.events[j]->GroupListItem_0.created_at_ms
        }),
{
    let le = queries::groups_by_age();
    let rows = table::stable_order(s.store.groups, le);
    let r = agents::group_list_reply(s);
    table::law_stable_order(s.store.groups, le);
    table::lemma_stable_order_members(s.store.groups, le, g);
    if s.store.groups.contains(g) {
        let k = choose|k: int| 0 <= k < rows.len() && rows[k] == g;
        assert(lists_group(r.events[k], g));
    }
    if 0 <= i < rows.len() {
        let p = queries::session_of_group(rows[i].name);
        let q = |y: SessionV| y.group_name == rows[i].name;
        table::law_stable_order(s.store.sessions.filter(p), queries::sessions_by_age());
        table::lemma_filter_same(s.store.sessions, p, q);
        let e = r.events[i]->GroupListItem_0;
        assert(e.name == rows[i].name);
    }
    if 0 <= i < j < rows.len() {
        assert(le(rows[i], rows[j]));
    }
}

/// A listing of a group's sessions shows exactly those, oldest first, each as it is recorded and with
/// the status that its child has.
pub proof fn law_sessions_are_listed(s: DaemonV, group: Seq<char>, x: SessionV, i: int, j: int)
    ensures
        ({
            let r = agents::session_list_reply(s, group);
            let n = r.events.len() - 1;
            &&& r.state == s && r.next is Done
            &&& r.events.len() > 0 && r.events[n] is SessionListEnd
            &&& s.store.sessions.contains(x) && x.group_name == group ==> exists|k: int|
                0 <= k < n && #[trigger] lists_session(s.store, r.events[k], x)
            &&& 0 <= i < n ==> exists|y: SessionV| #[trigger]
                s.store.sessions.contains(y) && y.group_name == group && lists_session(
                    s.store,
                    r.events[i],
                    y,
                )
            &&& 0 <= i < j < n ==> exists|y: SessionV, z: SessionV|
                {
                    &&& #[trigger] lists_session(s.store, r.events[i], y)
                    &&& #[trigger] lists_session(s.store, r.events[j], z)
                    &&& s.store.sessions.contains(y) && s.store.sessions.contains(z)
                    &&& y.created_at_ms <= z.created_at_ms
                }
        }),
{
    let p = queries::session_of_group(group);
    let le = queries::sessions_by_age();
    let rows = store::sessions_of(s.store, group);
    let r = agents::session_list_reply(s, group);
    table::law_stable_order(s.store.sessions.filter(p), le);
    if 0 <= i < j < rows.len() {
        assert(rows.contains(rows[j]));
        table::lemma_filter_contains(s.store.sessions, p, rows[j]);
        table::lemma_stable_order_members(s.store.sessions.filter(p), le, rows[j]);
        lemma_listed_session(s, group, j);
        assert(le(rows[i], rows[j]));
    }
    table::lemma_filter_contains(s.store.sessions, p, x);
    table::lemma_stable_order_members(s.store.sessions.filter(p), le, x);
    if rows.contains(x) {
        let k = choose|k: int| 0 <= k < rows.len() && rows[k] == x;
        lemma_listed_session(s, group, k);
    }
    if 0 <= i < rows.len() {
        assert(rows.contains(rows[i]));
        table::lemma_filter_contains(s.store.sessions, p, rows[i]);
        table::lemma_stable_order_members(s.store.sessions.filter(p), le, rows[i]);
        lemma_listed_session(s, group, i);
        assert(s.store.sessions.contains(rows[i]));
    }
}

proof fn lemma_listed_session(s: DaemonV, group: Seq<char>, k: int)
    requires
        0 <= k < store::sessions_of(s.store, group).len(),
    ensures
        lists_session(
            s.store,
            agents::session_list_reply(s, group).events[k],
            store::sessions_of(s.store, group)[k],
        ),
{
    let x = store::sessions_of(s.store, group)[k];
    lookup_laws::law_agent_is_found(s, x.group_name, x.child_agent, Seq::empty());
    if let Some(a) = store::agent_of(s.store, x.group_name, x.child_agent) {
        assert(s.store.agents.contains(a));
    }
}

/// Whether an event lists a session as it is recorded, with the status of its child.
pub open spec fn lists_session(s: StoreV, e: EventV, x: SessionV) -> bool {
    e matches EventV::SessionListItem(y) && {
        &&& y.group == x.group_name && y.name == x.name && y.child_agent == x.child_agent
        &&& y.fs_mode == if x.fs_mode == "worktree"@ {
            FsMode::Worktree
        } else {
            FsMode::New
        }
        &&& y.workspace_path == x.workspace_path && y.branch == x.branch && y.status == x.status
        &&& y.child_status is Some ==> exists|a: AgentV| #[trigger]
            s.agents.contains(a) && a.group_name == x.group_name && a.name == x.child_agent
                && a.status == y.child_status->0
        &&& y.child_status is None ==> forall|i: int|
            0 <= i < s.agents.len() ==> !((#[trigger] s.agents[i]).group_name == x.group_name
                && s.agents[i].name == x.child_agent)
    }
}

/// Whether an event lists an agent as it is recorded.
pub open spec fn lists_agent(e: EventV, a: AgentV) -> bool {
    e matches EventV::AgentListItem(b) && b.group == a.group_name && b.name == a.name && b.role
        == a.role && b.status == a.status && b.dir == a.dir && b.pid == a.pid
}

/// A listing of agents shows exactly those of the group that is asked for, or all, each as it is
/// recorded.
pub proof fn law_agents_are_listed(s: DaemonV, group: Option<Seq<char>>, a: AgentV, i: int)
    ensures
        ({
            let r = agents::agent_list_reply(s, group, None);
            let n = r.events.len() - 1;
            &&& r.state == s && r.next is Done
            &&& r.events.len() > 0 && r.events[n] is AgentListEnd
            &&& s.store.agents.contains(a) && (group is Some ==> a.group_name == group->0)
                ==> exists|k: int| 0 <= k < n && #[trigger] lists_agent(r.events[k], a)
            &&& 0 <= i < n ==> exists|b: AgentV| #[trigger]
                s.store.agents.contains(b) && (group is Some ==> b.group_name == group->0)
                    && lists_agent(r.events[i], b)
        }),
{
    let p = queries::agent_of_group(group);
    let le = queries::agents_by_age();
    let rows = store::agents_of(s.store, group);
    let r = agents::agent_list_reply(s, group, None);
    table::lemma_filter_contains(s.store.agents, p, a);
    table::lemma_stable_order_members(s.store.agents.filter(p), le, a);
    if rows.contains(a) {
        let k = choose|k: int| 0 <= k < rows.len() && rows[k] == a;
        assert(lists_agent(r.events[k], a));
    }
    if 0 <= i < rows.len() {
        assert(rows.contains(rows[i]));
        table::lemma_filter_contains(s.store.agents, p, rows[i]);
        table::lemma_stable_order_members(s.store.agents.filter(p), le, rows[i]);
        assert(s.store.agents.contains(rows[i]));
        assert(lists_agent(r.events[i], rows[i]));
    }
}

/// Whom a bearer token belongs to is told as it is recorded; the session of a child is that of its
/// name, and a prime has none.
pub proof fn law_bearer_is_told_who_it_is(s: DaemonV, token: Seq<char>, me: AgentV)
    requires
        agents::bearer(s, token) == Some(me),
    ensures
        ({
            let r = agents::who_am_i_reply(s, token);
            &&& r.state == s && r.next is Done
            &&& r.events.len() == 1
            &&& r.events[0] matches EventV::WhoAmI(w) && w.group == me.group_name && w.agent
                == me.name && w.role == me.role && w.session == if me.role == "child"@ {
                Some(me.name)
            } else {
                None
            }
        }),
{
}

} // verus!
