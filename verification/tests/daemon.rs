use wt::auth;
use wt::clock::unix_ms;
use wt::conns::Conns;
use wt::crypto::Identity;
use wt::daemon::{DaemonState, Moment, Next, Reply};
use wt::dispatch::{ends_connection, now, undecodable};
use wt::harness::{extract_assistant_text, HarnessEvent};
use wt::ipc::{
    AgentMsgKind, FsMode, IpcErrorCode, IpcEvent, IpcRequest, PeerFilter, PeerSelector, PeerSource,
    PeerState,
};
use wt::lan::LanPeers;
use wt::node::NodeId;
use wt::peering::{self, Senders};
use wt::rows::{AgentRow, SessionRow};
use wt::store::Store;
use wt::supervisor::{duties, Duty, Supervisor, Wake};
use wt::token::Cap;
use wt::workspace::{TeardownStep, Workspace};

fn daemon() -> DaemonState {
    DaemonState {
        identity: Identity::generate(),
        store: Store::new(),
        conns: Conns::new(),
        lan: LanPeers::new(),
        home: "/home/me/.wt".to_string(),
        harness_cmd: None,
        harness_program: "coder".to_string(),
        version: "0.5.0".to_string(),
    }
}

fn moment(now_ms: u64, token: &str) -> Moment {
    Moment {
        now_ms,
        now_secs: now_ms / 1000,
        token: token.to_string(),
        id: [5; 16],
    }
}

fn failure(r: &Reply) -> (IpcErrorCode, String) {
    assert_eq!(r.events.len(), 1);
    match &r.events[0] {
        IpcEvent::Failed(e) => (e.code, e.message.clone()),
        other => panic!("expected a failure, got {other:?}"),
    }
}

fn is_ok(r: &Reply) -> bool {
    r.events.len() == 1 && matches!(r.events[0], IpcEvent::Done)
}

/// The messages that a reader of the bus is shown, each of them marked once it was taken.
fn read(
    d: &mut DaemonState,
    token: &str,
    session: Option<&str>,
    consume: bool,
) -> Vec<(String, AgentMsgKind, Vec<u8>)> {
    let r = d.dispatch(&IpcRequest::AgentRecv {
        token: token.to_string(),
        session: session.map(|s| s.to_string()),
        since_ms: None,
        follow: false,
        consume,
    });
    let reading = match r.next {
        Next::ReadBus(b) => b,
        _ => panic!("expected a reading"),
    };
    for m in &reading.marks {
        d.followed(&reading.group, &m.session, m.seq, unix_ms());
    }
    let mut got = Vec::new();
    for ev in &r.events {
        match ev {
            IpcEvent::AgentMsg {
                from_agent,
                kind,
                payload,
                ..
            } => got.push((from_agent.clone(), *kind, payload.clone())),
            IpcEvent::AgentBacklogEnd => return got,
            other => panic!("unexpected event during recv: {other:?}"),
        }
    }
    panic!("the backlog did not end");
}

fn send(
    d: &mut DaemonState,
    token: &str,
    session: &str,
    kind: AgentMsgKind,
    payload: &[u8],
) -> Reply {
    d.dispatch(&IpcRequest::AgentSend {
        token: token.to_string(),
        session: session.to_string(),
        kind,
        payload: payload.to_vec(),
    })
}

#[test]
fn agent_bus_routes_send_recv_and_whoami() {
    let mut d = daemon();
    // Seed a group with a prime and one child session.
    let tok_prime = "primetokenprimetokenprimetoken00";
    let tok_child = "childtokenchildtokenchildtoken000";
    d.store.group_create("myapp");
    d.store.agent_register(&AgentRow {
        group_name: "myapp".into(),
        name: "prime".into(),
        token_hash: auth::agent_token_hash(tok_prime),
        role: "prime".into(),
        dir: None,
        pid: None,
        status: "running".into(),
        created_at_ms: unix_ms(),
        last_seen_ms: None,
    });
    d.store.agent_register(&AgentRow {
        group_name: "myapp".into(),
        name: "frontend".into(),
        token_hash: auth::agent_token_hash(tok_child),
        role: "child".into(),
        dir: Some("/proj".into()),
        pid: None,
        status: "running".into(),
        created_at_ms: unix_ms(),
        last_seen_ms: None,
    });
    d.store.session_create(&SessionRow {
        group_name: "myapp".into(),
        name: "frontend".into(),
        prime_agent: "prime".into(),
        child_agent: "frontend".into(),
        fs_mode: "worktree".into(),
        base_dir: Some("/proj".into()),
        workspace_path: "/tmp/ws".into(),
        branch: Some("wt/myapp/frontend".into()),
        status: "active".into(),
        created_at_ms: unix_ms(),
    });

    // prime to child (turn_input)
    let r = send(
        &mut d,
        tok_prime,
        "frontend",
        AgentMsgKind::TurnInput,
        b"do the thing",
    );
    assert!(is_ok(&r));

    // The child drains its inbox and sees the prime's turn_input.
    let to_child = read(&mut d, tok_child, None, false);
    assert_eq!(to_child.len(), 1);
    assert_eq!(to_child[0].0, "prime");
    assert!(matches!(to_child[0].1, AgentMsgKind::TurnInput));
    assert_eq!(to_child[0].2, b"do the thing");

    // child to prime (turn_output)
    let r = send(
        &mut d,
        tok_child,
        "frontend",
        AgentMsgKind::TurnOutput,
        b"did the thing",
    );
    assert!(is_ok(&r));

    // The prime drains the frontend session and sees only the child's output.
    let to_prime = read(&mut d, tok_prime, Some("frontend"), false);
    assert_eq!(to_prime.len(), 1);
    assert_eq!(to_prime[0].0, "frontend");
    assert!(matches!(to_prime[0].1, AgentMsgKind::TurnOutput));
    assert_eq!(to_prime[0].2, b"did the thing");

    // whoami resolves the child's identity from its token.
    let r = d.dispatch(&IpcRequest::WhoAmI {
        token: tok_child.into(),
    });
    match &r.events[0] {
        IpcEvent::WhoAmIInfo(w) => {
            assert_eq!(w.group, "myapp");
            assert_eq!(w.agent, "frontend");
            assert_eq!(w.role, "child");
            assert_eq!(w.session.as_deref(), Some("frontend"));
        }
        other => panic!("unexpected whoami event: {other:?}"),
    }

    // An unknown token is rejected.
    let r = d.dispatch(&IpcRequest::WhoAmI {
        token: "bogus".into(),
    });
    assert!(matches!(r.events[0], IpcEvent::Failed(_)));
    assert_eq!(
        failure(&r),
        (
            IpcErrorCode::Unauthorized,
            "unknown or invalid wt token".to_string()
        )
    );
}

fn new_group(d: &mut DaemonState, name: &str) -> String {
    let r = d.dispatch(&IpcRequest::GroupNew {
        name: name.to_string(),
    });
    match &r.events[0] {
        IpcEvent::GroupCreated { group, token } => {
            assert_eq!(group, name);
            assert_eq!(token.len(), 52, "expected a 52-char base32 token");
            token.clone()
        }
        other => panic!("unexpected event: {other:?}"),
    }
}

fn spawn_request(token: &str, group: &str, session: &str, prompt: &str, trace: bool) -> IpcRequest {
    IpcRequest::Spawn {
        token: token.to_string(),
        group: group.to_string(),
        session: session.to_string(),
        base_dir: "/base".to_string(),
        fs_mode: FsMode::New,
        branch: None,
        label: None,
        prompt: prompt.to_string(),
        harness_argv: None,
        idle_timeout_secs: Some(2),
        permission_mode: None,
        skip_permissions: false,
        trace,
        coordinator: false,
    }
}

/// Drives a spawn to its end; what is outside succeeds.
fn spawn(d: &mut DaemonState, token: &str, session: &str, prompt: &str, trace: bool) -> (Supervisor, String) {
    let r = d.dispatch(&spawn_request(token, "myapp", session, prompt, trace));
    let order = match r.next {
        Next::Provision(o) => o,
        _ => panic!("expected a workspace to be provisioned"),
    };
    let ws = Workspace {
        path: format!("/home/me/.wt/sessions/myapp/{session}"),
        branch: None,
    };
    let r = d.provisioned(order, ws, &now());
    let launch = match r.next {
        Next::Launch(l) => l,
        _ => panic!("expected a harness to be launched"),
    };
    assert_eq!(launch.spec.initial_prompt, prompt);
    let r = d.launched(&launch, Some(4242), unix_ms(), 0);
    let child = match &r.events[0] {
        IpcEvent::Spawned {
            session: s,
            token,
            workspace,
            ..
        } => {
            assert_eq!(s, session);
            assert!(workspace.ends_with(session));
            token.clone()
        }
        other => panic!("unexpected event: {other:?}"),
    };
    match r.next {
        Next::Supervise(sup, _) => (sup, child),
        _ => panic!("expected the harness to be supervised"),
    }
}

/// Feeds the turns that wait and lets the child echo each.
fn echo_turns(d: &mut DaemonState, sup: &mut Supervisor, first: Option<&str>) -> usize {
    let mut said = Vec::new();
    if let Some(t) = first {
        said.push(t.to_string());
    }
    for t in sup.waiting(&d.store) {
        let v = wt::json::parse(t.line.trim()).unwrap();
        said.push(extract_assistant_text(&v).unwrap());
        sup.fed(&mut d.store, &t.session, t.seq, unix_ms(), 1);
    }
    let n = said.len();
    for s in said {
        let text = HarnessEvent::AssistantText(format!("thinking about {s}"));
        sup.report(&mut d.store, text, unix_ms(), 1);
        let done = HarnessEvent::TurnComplete {
            result: format!("echo:{s}"),
            is_error: false,
        };
        sup.report(&mut d.store, done, unix_ms(), 1);
    }
    n
}

fn child_status(d: &DaemonState, session: &str) -> String {
    d.store.agent_get("myapp", session).unwrap().status
}

#[test]
fn spawn_drives_turn_loop_through_the_prime() {
    let mut d = daemon();
    let prime = new_group(&mut d, "myapp");
    let (mut sup, child) = spawn(&mut d, &prime, "worker", "hello", false);
    assert_eq!(child_status(&d, "worker"), "running");
    assert_eq!(d.store.agent_get("myapp", "worker").unwrap().pid, Some(4242));

    // The task is not fed again; the child answers it.
    assert_eq!(echo_turns(&mut d, &mut sup, Some("hello")), 1);
    assert_eq!(child_status(&d, "worker"), "awaiting_input");
    let got = read(&mut d, &prime, Some("worker"), true);
    assert_eq!(got.len(), 1);
    assert_eq!(got[0].0, "worker");
    assert_eq!(got[0].2, b"echo:hello");

    // The prime's reply is fed back as the next turn, once.
    assert!(is_ok(&send(
        &mut d,
        &prime,
        "worker",
        AgentMsgKind::TurnInput,
        b"again please"
    )));
    assert_eq!(echo_turns(&mut d, &mut sup, None), 1);
    assert_eq!(echo_turns(&mut d, &mut sup, None), 0);
    let got = read(&mut d, &prime, Some("worker"), true);
    assert_eq!(got[0].2, b"echo:again please");

    // The session is listed, and the prime may end it.
    let r = d.dispatch(&IpcRequest::SessionList {
        group: "myapp".to_string(),
    });
    assert!(matches!(&r.events[0], IpcEvent::SessionListItem(s) if s.name == "worker"));
    let r = d.dispatch(&IpcRequest::AgentKill {
        token: prime.clone(),
        agent: "worker".to_string(),
    });
    assert!(is_ok(&r));
    assert!(matches!(r.next, Next::Kill { agent, .. } if agent == "worker"));
    assert_eq!(child_status(&d, "worker"), "exited");
    assert_eq!(d.store.session_get("myapp", "worker").unwrap().status, "closed");
    // The child's token still tells who it was.
    assert!(matches!(
        &d.who_am_i(&child).events[0],
        IpcEvent::WhoAmIInfo(w) if w.agent == "worker"
    ));
}

#[test]
fn concurrent_sessions_route_independently() {
    let mut d = daemon();
    let prime = new_group(&mut d, "myapp");
    let (mut fe, _) = spawn(&mut d, &prime, "frontend", "FE", false);
    let (mut be, _) = spawn(&mut d, &prime, "backend", "BE", false);
    echo_turns(&mut d, &mut fe, Some("FE"));
    echo_turns(&mut d, &mut be, Some("BE"));
    let got = read(&mut d, &prime, None, true);
    assert_eq!(got.len(), 2);
    assert!(got.iter().any(|m| m.0 == "frontend" && m.2 == b"echo:FE"));
    assert!(got.iter().any(|m| m.0 == "backend" && m.2 == b"echo:BE"));

    send(&mut d, &prime, "frontend", AgentMsgKind::TurnInput, b"more");
    assert_eq!(echo_turns(&mut d, &mut be, None), 0);
    assert_eq!(echo_turns(&mut d, &mut fe, None), 1);
    let got = read(&mut d, &prime, None, true);
    assert_eq!(got.len(), 1);
    assert_eq!((got[0].0.as_str(), got[0].2.as_slice()), ("frontend", &b"echo:more"[..]));
}

#[test]
fn idle_turn_timeout_notifies_prime_without_killing() {
    let mut d = daemon();
    let prime = new_group(&mut d, "myapp");
    let (mut sup, _) = spawn(&mut d, &prime, "stuck", "do work", false);
    assert!(sup.check_idle(&mut d.store, unix_ms(), 1_999).is_empty());
    assert_eq!(sup.check_idle(&mut d.store, unix_ms(), 2_500).len(), 1);
    assert!(sup.check_idle(&mut d.store, unix_ms(), 9_000).is_empty());
    let got = read(&mut d, &prime, Some("stuck"), false);
    assert_eq!(got.len(), 1);
    assert!(matches!(got[0].1, AgentMsgKind::Control));
    assert_eq!(
        String::from_utf8(got[0].2.clone()).unwrap(),
        "turn idle for 2s — harness still running"
    );
    assert_ne!(child_status(&d, "stuck"), "exited");
    // Once the turn is over there is nothing to wait for.
    echo_turns(&mut d, &mut sup, Some("do work"));
    assert!(sup.check_idle(&mut d.store, unix_ms(), 99_000).is_empty());
}

#[test]
fn recv_consumes_then_all_replays() {
    let mut d = daemon();
    let prime = new_group(&mut d, "myapp");
    let (mut sup, _) = spawn(&mut d, &prime, "worker", "hello", false);
    echo_turns(&mut d, &mut sup, Some("hello"));
    let first = read(&mut d, &prime, None, true);
    assert_eq!(first[0].2, b"echo:hello");
    let second = read(&mut d, &prime, None, true);
    assert!(second.is_empty());
    let all = read(&mut d, &prime, None, false);
    assert_eq!(all.len(), 1);
    assert_eq!(all[0].2, b"echo:hello");
}

#[test]
fn orphan_reconcile_on_restart() {
    let mut d = daemon();
    let prime = new_group(&mut d, "myapp");
    let (mut sup, _) = spawn(&mut d, &prime, "worker", "hello", false);
    echo_turns(&mut d, &mut sup, Some("hello"));
    assert_eq!(child_status(&d, "worker"), "awaiting_input");
    // A fresh daemon finds what the last one left.
    d.store.reconcile_stale_agents();
    let r = d.dispatch(&IpcRequest::SessionList {
        group: "myapp".to_string(),
    });
    match &r.events[0] {
        IpcEvent::SessionListItem(s) => {
            assert_eq!(s.name, "worker");
            assert_eq!(s.status, "closed");
            assert_eq!(s.child_status.as_deref(), Some("exited"));
        }
        other => panic!("unexpected event: {other:?}"),
    }
}

#[test]
fn trace_forwards_assistant_text_only_when_enabled() {
    let mut d = daemon();
    let prime = new_group(&mut d, "myapp");
    let (mut loud, _) = spawn(&mut d, &prime, "worker", "hello", true);
    echo_turns(&mut d, &mut loud, Some("hello"));
    let out = read(&mut d, &prime, Some("worker"), true);
    assert!(out
        .iter()
        .any(|m| m.1 == AgentMsgKind::TurnOutput && m.2 == b"echo:hello"));
    assert!(out
        .iter()
        .any(|m| m.1 == AgentMsgKind::Trace && m.2 == b"thinking about hello"));

    let (mut quiet, _) = spawn(&mut d, &prime, "quiet", "hi", false);
    echo_turns(&mut d, &mut quiet, Some("hi"));
    let out = read(&mut d, &prime, Some("quiet"), true);
    assert!(out.iter().any(|m| m.2 == b"echo:hi"));
    assert!(!out.iter().any(|m| m.1 == AgentMsgKind::Trace));
}

#[test]
fn an_exit_is_told_to_the_prime() {
    let mut d = daemon();
    let prime = new_group(&mut d, "myapp");
    let (mut sup, _) = spawn(&mut d, &prime, "worker", "hello", false);
    let o = sup.report(&mut d.store, HarnessEvent::Exited(Some(-9)), unix_ms(), 1);
    assert!(o.finished);
    assert_eq!(o.published.len(), 1);
    assert_eq!(child_status(&d, "worker"), "exited");
    let got = read(&mut d, &prime, None, true);
    assert_eq!(got[0].2, b"child exited (code Some(-9))");
}

#[test]
fn spawns_are_for_the_prime_of_the_group_and_for_free_names() {
    let mut d = daemon();
    let prime = new_group(&mut d, "myapp");
    let (_, child) = spawn(&mut d, &prime, "worker", "hello", false);
    let other = new_group(&mut d, "other");
    for token in [&child, &other] {
        let r = d.dispatch(&spawn_request(token, "myapp", "second", "x", false));
        assert_eq!(
            failure(&r),
            (
                IpcErrorCode::Unauthorized,
                "spawn requires the group's prime token".to_string()
            )
        );
    }
    let r = d.dispatch(&spawn_request(&prime, "myapp", "worker", "x", false));
    assert_eq!(
        failure(&r),
        (
            IpcErrorCode::BadRequest,
            "session 'worker' already exists in group 'myapp'".to_string()
        )
    );
    let r = d.not_provisioned("no room");
    assert_eq!(failure(&r).1, "workspace provisioning failed: no room");
}

#[test]
fn a_spawn_that_loses_a_race_is_undone() {
    let mut d = daemon();
    let prime = new_group(&mut d, "myapp");
    let order = |d: &mut DaemonState| match d
        .dispatch(&spawn_request(&prime, "myapp", "worker", "x", false))
        .next
    {
        Next::Provision(o) => o,
        _ => panic!("expected a workspace to be provisioned"),
    };
    let first = order(&mut d);
    let second = order(&mut d);
    let ws = || Workspace {
        path: "/ws".to_string(),
        branch: None,
    };
    assert!(matches!(
        d.provisioned(first, ws(), &now()).next,
        Next::Launch(_)
    ));
    let r = d.provisioned(second, ws(), &now());
    assert_eq!(failure(&r).0, IpcErrorCode::BadRequest);
    match r.next {
        Next::Undo(steps) => assert!(matches!(
            &steps[0],
            TeardownStep::RemoveDir { path, .. } if path == "/ws"
        )),
        _ => panic!("expected the workspace to be undone"),
    }
}

#[test]
fn a_launch_carries_what_the_child_needs() {
    let mut d = daemon();
    let prime = new_group(&mut d, "myapp");
    let mut request = spawn_request(&prime, "myapp", "boss", "ship it", false);
    if let IpcRequest::Spawn { coordinator, permission_mode, .. } = &mut request {
        *coordinator = true;
        *permission_mode = Some("plan".to_string());
    }
    let order = match d.dispatch(&request).next {
        Next::Provision(o) => o,
        _ => panic!("expected a workspace to be provisioned"),
    };
    let ws = Workspace {
        path: "/ws".to_string(),
        branch: None,
    };
    let l = match d.provisioned(order, ws, &moment(77, "CHILD")).next {
        Next::Launch(l) => l,
        _ => panic!("expected a harness to be launched"),
    };
    assert_eq!(l.spec.argv[0], "coder");
    assert_eq!(l.spec.argv[l.spec.argv.len() - 2..], ["--permission-mode", "plan"]);
    assert_eq!(
        l.spec.env,
        vec![
            ("WT_TOKEN".to_string(), "CHILD".to_string()),
            ("WT_GROUP".to_string(), "myapp".to_string()),
            ("WT_SESSION".to_string(), "boss".to_string()),
            ("WT_AGENT".to_string(), "boss".to_string()),
            ("WT_HOME".to_string(), "/home/me/.wt".to_string()),
        ]
    );
    assert_eq!(
        l.spec.stderr_log.as_deref(),
        Some("/home/me/.wt/logs/harness-myapp-boss.log")
    );
    assert!(l
        .spec
        .initial_prompt
        .starts_with("You are the PRIME COORDINATOR of wt group `myapp`."));
    assert!(l.spec.initial_prompt.contains("wt spawn --session <name> --dir /base --worktree"));
    assert!(l.spec.initial_prompt.ends_with("The user's goal:\nship it"));
    assert_eq!(d.store.agent_get("myapp", "boss").unwrap().role, "prime");

    // A harness that cannot be launched leaves the child exited and the workspace undone.
    let r = d.launch_failed(&l, "no such file", 80);
    assert_eq!(
        failure(&r),
        (
            IpcErrorCode::Internal,
            "harness spawn failed: no such file".to_string()
        )
    );
    assert!(matches!(r.next, Next::Undo(_)));
    assert_eq!(child_status(&d, "boss"), "exited");
}

#[test]
fn sessions_are_closed_by_the_prime() {
    let mut d = daemon();
    let prime = new_group(&mut d, "myapp");
    let (_, child) = spawn(&mut d, &prime, "worker", "hello", false);
    let close = |token: &str, session: &str, discard: bool| IpcRequest::SessionClose {
        token: token.to_string(),
        session: session.to_string(),
        discard,
    };
    assert_eq!(
        failure(&d.dispatch(&close(&child, "worker", false))).1,
        "only the prime may close sessions"
    );
    assert_eq!(
        failure(&d.dispatch(&close(&prime, "nobody", false))),
        (IpcErrorCode::NotFound, "no such session".to_string())
    );
    let r = d.dispatch(&close(&prime, "worker", true));
    assert!(is_ok(&r));
    assert!(matches!(r.next, Next::Close { agent, steps, .. }
        if agent == "worker" && steps.len() == 1));
    assert_eq!(d.store.session_get("myapp", "worker").unwrap().status, "closed");
    assert_eq!(
        failure(&d.dispatch(&IpcRequest::AgentKill {
            token: child,
            agent: "prime".to_string()
        }))
        .1,
        "only the prime may kill agents"
    );
    assert_eq!(
        failure(&d.dispatch(&IpcRequest::AgentKill {
            token: prime.clone(),
            agent: "ghost".to_string()
        }))
        .1,
        "no such agent"
    );
    assert_eq!(
        failure(&d.dispatch(&IpcRequest::GroupNew {
            name: "myapp".to_string()
        }))
        .1,
        "group 'myapp' already exists"
    );
}

#[test]
fn messages_stay_between_the_endpoints_of_a_session() {
    let mut d = daemon();
    let prime = new_group(&mut d, "myapp");
    let (_, a) = spawn(&mut d, &prime, "a", "", false);
    let (_, b) = spawn(&mut d, &prime, "b", "", false);
    assert_eq!(
        failure(&send(&mut d, &a, "b", AgentMsgKind::User, b"psst")),
        (
            IpcErrorCode::BadRequest,
            "sender is not a participant of this session".to_string()
        )
    );
    assert_eq!(
        failure(&send(&mut d, &a, "c", AgentMsgKind::User, b"psst")).1,
        "no such session"
    );
    let r = send(&mut d, &a, "a", AgentMsgKind::User, b"hi");
    match r.next {
        Next::Publish(e) => {
            assert_eq!((e.from_agent.as_str(), e.to_agent.as_str()), ("a", "prime"));
            assert!(wt::bus::live_event(&e, "myapp", "prime", &None).is_some());
            assert!(wt::bus::live_event(&e, "myapp", "b", &None).is_none());
            assert!(wt::bus::live_event(&e, "other", "prime", &None).is_none());
            assert!(
                wt::bus::live_event(&e, "myapp", "prime", &Some("b".to_string())).is_none()
            );
        }
        _ => panic!("expected the message to be published"),
    }
    assert!(read(&mut d, &b, None, false).is_empty());
    assert_eq!(read(&mut d, &prime, None, false).len(), 1);
    let r = d.dispatch(&IpcRequest::AgentList {
        group: Some("myapp".to_string()),
        session: Some("a".to_string()),
    });
    assert_eq!(r.events.len(), 3);
    let r = d.dispatch(&IpcRequest::AgentList {
        group: Some("myapp".to_string()),
        session: None,
    });
    assert_eq!(r.events.len(), 4);
    let r = d.dispatch(&IpcRequest::GroupList);
    assert!(matches!(&r.events[0], IpcEvent::GroupListItem(g) if g.session_count == 2));
}

#[test]
fn agents_are_listed_by_session_in_every_group() {
    let mut d = daemon();
    new_group(&mut d, "one");
    new_group(&mut d, "two");
    let spawned = [("one", "fe", 1), ("one", "be", 2), ("two", "fe", 3)];
    for (group, session, created_at_ms) in spawned {
        d.store.agent_register(&AgentRow {
            group_name: group.to_string(),
            name: session.to_string(),
            token_hash: auth::agent_token_hash(&format!("{group}/{session}")),
            role: "child".to_string(),
            dir: None,
            pid: None,
            status: "running".to_string(),
            created_at_ms,
            last_seen_ms: None,
        });
        d.store.session_create(&SessionRow {
            group_name: group.to_string(),
            name: session.to_string(),
            prime_agent: "prime".to_string(),
            child_agent: session.to_string(),
            fs_mode: "new".to_string(),
            base_dir: None,
            workspace_path: "/tmp/ws".to_string(),
            branch: None,
            status: "active".to_string(),
            created_at_ms,
        });
    }
    let listed = |d: &mut DaemonState, group: Option<&str>, session: &str| -> Vec<String> {
        let r = d.dispatch(&IpcRequest::AgentList {
            group: group.map(|g| g.to_string()),
            session: Some(session.to_string()),
        });
        assert!(matches!(r.events.last(), Some(IpcEvent::AgentListEnd)));
        r.events
            .iter()
            .filter_map(|e| match e {
                IpcEvent::AgentListItem(a) => Some(format!("{}/{}", a.group, a.name)),
                _ => None,
            })
            .collect()
    };
    assert_eq!(
        listed(&mut d, None, "fe"),
        vec!["one/prime", "one/fe", "two/prime", "two/fe"]
    );
    assert_eq!(listed(&mut d, None, "be"), vec!["one/prime", "one/be"]);
    assert!(listed(&mut d, None, "ghost").is_empty());
    assert_eq!(listed(&mut d, Some("two"), "fe"), vec!["two/prime", "two/fe"]);
    let r = d.dispatch(&IpcRequest::AgentList {
        group: Some("two".to_string()),
        session: Some("be".to_string()),
    });
    assert_eq!(
        failure(&r),
        (IpcErrorCode::NotFound, "no such session".to_string())
    );
}

#[test]
fn a_sender_that_is_not_known_shows_nothing() {
    let mut d = daemon();
    let from = NodeId([2; 32]);
    d.store.inbox_record(from, "default", 1, b"hello", 10);
    let ask = |peer: Option<PeerSelector>| IpcRequest::RecvSubscribe {
        peer,
        channel: None,
        since_ms: None,
        follow: true,
    };
    let live = IpcEvent::RecvMsg {
        from,
        from_name: None,
        channel: "default".to_string(),
        payload: vec![],
        ts_ms: 0,
    };
    let r = d.dispatch(&ask(None));
    assert_eq!(r.events.len(), 2);
    assert!(matches!(r.next, Next::FollowInbox { peer: Senders::Any, .. }));
    let r = d.dispatch(&ask(Some(PeerSelector::Name("ghost".to_string()))));
    assert!(matches!(r.events[..], [IpcEvent::RecvBacklogEnd]));
    match r.next {
        Next::FollowInbox { peer, channel } => {
            assert!(matches!(peer, Senders::Nobody));
            assert!(!peering::passes(&live, &peer, &channel));
        }
        _ => panic!("expected to follow"),
    }
}

#[test]
fn a_supervisor_feeds_before_it_looks_for_silence() {
    assert_eq!(duties(Wake::Begun), vec![Duty::Feed]);
    assert_eq!(duties(Wake::Bus), vec![Duty::Feed]);
    assert_eq!(
        duties(Wake::Poll),
        vec![Duty::Heartbeat, Duty::Feed, Duty::CheckIdle]
    );
}

#[test]
fn a_harness_that_cannot_be_reached_is_told_to_the_prime() {
    let mut d = daemon();
    let prime = new_group(&mut d, "myapp");
    let (sup, _) = spawn(&mut d, &prime, "a", "", false);
    let (other, _) = spawn(&mut d, &prime, "b", "", false);
    assert_eq!(sup.write_failed(&mut d.store, unix_ms()).len(), 1);
    assert_eq!(other.read_failed(&mut d.store, unix_ms()).len(), 1);
    assert_eq!(child_status(&d, "a"), "exited");
    assert_eq!(child_status(&d, "b"), "exited");
    assert_eq!(
        read(&mut d, &prime, None, true),
        vec![
            (
                "a".to_string(),
                AgentMsgKind::Control,
                b"harness write failed".to_vec()
            ),
            (
                "b".to_string(),
                AgentMsgKind::Control,
                b"harness read error".to_vec()
            ),
        ]
    );
}

#[test]
fn a_reading_that_broke_off_is_resumed() {
    let mut d = daemon();
    let prime = new_group(&mut d, "myapp");
    let (_, a) = spawn(&mut d, &prime, "a", "", false);
    for body in ["one", "two", "three"] {
        assert!(is_ok(&send(&mut d, &a, "a", AgentMsgKind::User, body.as_bytes())));
    }
    let r = d.dispatch(&IpcRequest::AgentRecv {
        token: prime.clone(),
        session: None,
        since_ms: None,
        follow: false,
        consume: true,
    });
    assert_eq!(r.events.len(), 4);
    let reading = match r.next {
        Next::ReadBus(b) => b,
        _ => panic!("expected a reading"),
    };
    assert_eq!(reading.marks.len(), 3);
    // The connection is lost behind the first message.
    d.followed(&reading.group, &reading.marks[0].session, reading.marks[0].seq, unix_ms());
    let bodies = |got: Vec<(String, AgentMsgKind, Vec<u8>)>| -> Vec<Vec<u8>> {
        got.into_iter().map(|m| m.2).collect()
    };
    assert_eq!(
        bodies(read(&mut d, &prime, None, true)),
        vec![b"two".to_vec(), b"three".to_vec()]
    );
    assert!(read(&mut d, &prime, None, true).is_empty());
    assert_eq!(read(&mut d, &prime, None, false).len(), 3);
}

#[test]
fn followers_are_told_apart() {
    let mut d = daemon();
    let prime = new_group(&mut d, "myapp");
    let r = d.dispatch(&IpcRequest::AgentRecv {
        token: prime,
        session: None,
        since_ms: None,
        follow: true,
        consume: true,
    });
    assert!(matches!(
        r.next,
        Next::ReadBus(b) if b.agent == "prime" && b.consume && b.follow && b.marks.is_empty()
    ));
    let r = d.dispatch(&IpcRequest::RecvSubscribe {
        peer: Some(PeerSelector::NodeId(NodeId([3; 32]))),
        channel: Some("ops".to_string()),
        since_ms: None,
        follow: true,
    });
    assert!(matches!(
        r.next,
        Next::FollowInbox { peer: Senders::Node(NodeId([3, ..])), channel: Some(_) }
    ));
    assert!(ends_connection(&IpcRequest::RecvSubscribe {
        peer: None,
        channel: None,
        since_ms: None,
        follow: false
    }));
    assert!(!ends_connection(&IpcRequest::Status));
    assert!(matches!(
        undecodable("eof"),
        IpcEvent::Failed(e) if e.code == IpcErrorCode::BadRequest && e.message == "decode request: eof"
    ));
}

#[test]
fn peers_and_their_states_are_listed() {
    let mut d = daemon();
    let bob = NodeId([2; 32]);
    let add = |n: NodeId, name: &str| IpcRequest::PeerAdd {
        nodeid: n,
        name: name.to_string(),
        addr_blob: None,
    };
    assert!(is_ok(&d.handle(&add(bob, "bob"), &moment(10, "t"))));
    assert!(is_ok(&d.handle(&add(NodeId([4; 32]), "dave"), &moment(10, "t"))));
    let r = d.handle(&add(NodeId([9; 32]), "bob"), &moment(10, "t"));
    assert_eq!(
        failure(&r),
        (
            IpcErrorCode::Internal,
            "UNIQUE constraint failed: peers.name: Error code 2067: A UNIQUE constraint failed"
                .to_string()
        )
    );
    d.conns
        .stream_opened(bob, Some("bob".to_string()), "ops", false, 5);
    let own = d.identity.nodeid();
    let seen = NodeId([7; 32]);
    for n in [own, bob, seen] {
        d.lan.resolve(
            &own,
            Some(&n.to_string()),
            vec!["192.168.0.7".to_string()],
            4242,
            format!("wt-{}", n.short_text()),
            6,
        );
    }
    let names = |d: &mut DaemonState, f: PeerFilter| -> Vec<String> {
        d.dispatch(&IpcRequest::PeerList { filter: f })
            .events
            .iter()
            .filter_map(|e| match e {
                IpcEvent::PeerListItem(p) => Some(p.name.clone()),
                _ => None,
            })
            .collect()
    };
    let lan_name = format!("wt-{}", seen.short_text());
    assert_eq!(names(&mut d, PeerFilter::All), vec!["bob", "dave", &lan_name]);
    assert_eq!(names(&mut d, PeerFilter::Remote), vec!["bob", "dave"]);
    assert_eq!(names(&mut d, PeerFilter::Local), vec![lan_name.as_str()]);
    assert_eq!(names(&mut d, PeerFilter::Connected), vec!["bob"]);
    let r = d.dispatch(&IpcRequest::PeerList {
        filter: PeerFilter::All,
    });
    match (&r.events[0], &r.events[1], &r.events[2]) {
        (
            IpcEvent::PeerListItem(a),
            IpcEvent::PeerListItem(b),
            IpcEvent::PeerListItem(c),
        ) => {
            assert_eq!(a.state, PeerState::Connected { open_streams: 1 });
            assert_eq!(b.state, PeerState::Offline);
            assert_eq!((c.source, c.state), (PeerSource::Mdns, PeerState::Idle));
        }
        _ => panic!("expected three peers"),
    }
    let r = d.dispatch(&IpcRequest::ConnList);
    assert!(matches!(&r.events[0], IpcEvent::ConnListItem(c) if c.streams == vec!["msg:ops"]));
    let rm = IpcRequest::PeerRm {
        selector: PeerSelector::Name("bob".to_string()),
    };
    assert!(is_ok(&d.dispatch(&rm)));
    assert_eq!(
        failure(&d.dispatch(&rm)),
        (IpcErrorCode::NotFound, "no such peer".to_string())
    );
    assert_eq!(
        failure(&d.dispatch(&IpcRequest::ConnClose {
            selector: PeerSelector::Name("bob".to_string())
        })),
        (
            IpcErrorCode::Unimplemented,
            "conn close not implemented yet".to_string()
        )
    );
}

#[test]
fn tokens_are_granted_imported_listed_and_revoked() {
    let mut alice = daemon();
    let mut bob = daemon();
    let (a, b) = (alice.identity.nodeid(), bob.identity.nodeid());
    let grant = IpcRequest::TokenGrant {
        peer: PeerSelector::Name("alice".to_string()),
        caps: vec![Cap::Msg],
        ttl_secs: Some(60),
    };
    assert_eq!(
        failure(&bob.handle(&grant, &moment(1_000_000, "t"))),
        (IpcErrorCode::NotFound, "peer not found".to_string())
    );
    bob.store.peer_add(a, "alice", None).unwrap();
    let claims = match bob.handle(&grant, &moment(1_000_000, "t")).next {
        Next::Encode(c) => c,
        _ => panic!("expected claims to be encoded"),
    };
    assert_eq!((claims.iss, claims.sub, claims.exp), (b, a, 1_060));
    let signed = bob.sign_claims(b"claims".to_vec());
    let raw = b"signed token".to_vec();
    let r = bob.granted(&claims, raw.clone());
    assert!(matches!(&r.events[0], IpcEvent::TokenIssued { raw: x, info }
        if *x == raw && info.id == [5; 16] && !info.revoked));

    // The importer has to know the issuer.
    let r = alice.import(&signed, Some(claims.copied()), raw.clone());
    assert_eq!(
        failure(&r),
        (
            IpcErrorCode::BadRequest,
            "token issuer is not a known peer".to_string()
        )
    );
    alice.store.peer_add(b, "bob", None).unwrap();
    let r = alice.import(&signed, Some(claims.copied()), raw.clone());
    assert!(matches!(&r.events[0], IpcEvent::TokenListItem(t) if t.iss == b));
    assert!(matches!(&r.events[1], IpcEvent::Done));
    // It is refused where it is not for the importer, not signed, or not readable.
    assert_eq!(
        failure(&bob.import(&signed, Some(claims.copied()), raw.clone())).1,
        "token subject is not this install"
    );
    let mut forged = signed.clone();
    forged.sig[3] ^= 1;
    assert_eq!(
        failure(&alice.import(&forged, Some(claims.copied()), raw.clone())),
        (
            IpcErrorCode::Unauthorized,
            "verify token signature: bad signature".to_string()
        )
    );
    assert_eq!(
        failure(&alice.import(&signed, None, raw)).1,
        "verify token signature: malformed claims"
    );
    assert_eq!(
        failure(&alice.import_undecodable("eof")).1,
        "decode signed token: eof"
    );
    assert!(matches!(
        alice.dispatch(&IpcRequest::TokenImport { raw: vec![1] }).next,
        Next::Decode(r) if r == vec![1]
    ));
    let r = alice.dispatch(&IpcRequest::TokenList);
    assert_eq!(r.events.len(), 2);
    let revoke = IpcRequest::TokenRevoke { id: [5; 16] };
    assert!(is_ok(&bob.dispatch(&revoke)));
    assert!(bob.store.token_find(&[5; 16]).unwrap().revoked);
    assert_eq!(
        failure(&bob.dispatch(&IpcRequest::TokenRevoke { id: [6; 16] })),
        (IpcErrorCode::NotFound, "no such token".to_string())
    );
}

#[test]
fn sends_go_to_the_outbox_and_receives_come_from_the_inbox() {
    let mut d = daemon();
    let bob = NodeId([2; 32]);
    let send = IpcRequest::Send {
        peer: PeerSelector::Name("bob".to_string()),
        channel: "default".to_string(),
        payload: b"{\"user\":\"hello\"}".to_vec(),
    };
    assert_eq!(failure(&d.dispatch(&send)).1, "peer not found");
    d.store.peer_add(bob, "bob", None).unwrap();
    let r = d.dispatch(&send);
    assert!(is_ok(&r));
    assert!(matches!(r.next, Next::Wake(n) if n == bob));
    assert_eq!(d.store.outbox_pending_for_peer(&bob, 10).len(), 1);

    d.store.inbox_record(bob, "default", 1, b"one", 100);
    d.store.inbox_record(NodeId([3; 32]), "default", 1, b"two", 200);
    let ask = |peer: Option<PeerSelector>, since_ms: Option<u64>| IpcRequest::RecvSubscribe {
        peer,
        channel: None,
        since_ms,
        follow: false,
    };
    let r = d.dispatch(&ask(None, None));
    assert_eq!(r.events.len(), 3);
    assert!(matches!(&r.events[0], IpcEvent::RecvMsg { from_name: Some(n), .. } if n == "bob"));
    assert!(matches!(&r.events[1], IpcEvent::RecvMsg { from_name: None, ts_ms: 200, .. }));
    assert!(matches!(r.next, Next::Done));
    let r = d.dispatch(&ask(Some(PeerSelector::Name("bob".to_string())), None));
    assert_eq!(r.events.len(), 2);
    let r = d.dispatch(&ask(None, Some(100)));
    assert_eq!(r.events.len(), 2);
}

#[test]
fn the_daemon_says_who_it_is() {
    let mut d = daemon();
    let r = d.dispatch(&IpcRequest::Status);
    let own = d.identity.nodeid();
    assert!(matches!(&r.events[0], IpcEvent::StatusInfo { nodeid, version, endpoint_bound: true }
        if *nodeid == own && version == "0.5.0"));
    let r = d.dispatch(&IpcRequest::NodeId);
    assert!(matches!(&r.events[0], IpcEvent::NodeIdValue(n) if *n == own));
    assert!(matches!(d.dispatch(&IpcRequest::Ticket).next, Next::Ticket));
    let r = d.ticket_reply(Some(b"foobar".to_vec()));
    assert!(matches!(&r.events[0], IpcEvent::TicketValue(t) if t == "wt1:MZXW6YTBOI"));
    assert_eq!(failure(&d.ticket_reply(None)).0, IpcErrorCode::Internal);
}
