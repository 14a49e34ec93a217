use wt::instance::{pid_file, recorded_pid, refusal_to_start};
use wt::ipc::FsMode;
use wt::paths;
use wt::workspace::{
    session_branch, teardown, ProvisionFact, ProvisionPlan, ProvisionStep, TeardownStep,
};

fn plan(mode: FsMode) -> ProvisionPlan {
    ProvisionPlan::for_session("/home/me/.wt", "myapp", "frontend", "/base", mode)
}

fn words(s: &str) -> Vec<String> {
    s.split(' ').map(|w| w.to_string()).collect()
}

#[test]
fn new_mode_creates_fresh_dir_and_discards() {
    let p = plan(FsMode::New);
    assert_eq!(p.ws, "/home/me/.wt/sessions/myapp/frontend");
    assert!(matches!(
        p.next(ProvisionFact::Exists(false)),
        ProvisionStep::MakeParent
    ));
    assert!(matches!(
        p.next(ProvisionFact::ParentMade),
        ProvisionStep::MakeDir
    ));
    match p.next(ProvisionFact::DirMade) {
        ProvisionStep::Ready(w) => {
            assert_eq!(w.path, p.ws);
            assert!(w.branch.is_none());
        }
        _ => panic!("expected the workspace"),
    }
    // Provisioning over an existing path is rejected.
    assert!(matches!(
        p.next(ProvisionFact::Exists(true)),
        ProvisionStep::Refused(_)
    ));
    // Non-discard teardown keeps the folder; discard removes it.
    assert!(teardown("/ws", None, FsMode::New, None, false).is_empty());
    let steps = teardown("/ws", None, FsMode::New, None, true);
    assert_eq!(steps.len(), 1);
    assert!(matches!(&steps[0], TeardownStep::RemoveDir { path, strict: true } if path == "/ws"));
}

#[test]
fn worktree_mode_requires_git_and_keeps_branch_until_discard() {
    let p = plan(FsMode::Worktree);
    assert_eq!(p.branch, "wt/myapp/frontend");
    assert_eq!(session_branch("g", "s"), "wt/g/s");
    // A base that is no repository is rejected.
    assert!(matches!(
        p.next(ProvisionFact::IsRepo(false)),
        ProvisionStep::Refused(_)
    ));
    // A repository: the worktree is added on its branch.
    assert!(matches!(
        p.next(ProvisionFact::ParentMade),
        ProvisionStep::ProbeRepo(_)
    ));
    match p.next(ProvisionFact::IsRepo(true)) {
        ProvisionStep::AddWorktree(v) => assert_eq!(
            v,
            words("git -C /base worktree add /home/me/.wt/sessions/myapp/frontend -b wt/myapp/frontend")
        ),
        _ => panic!("expected the worktree to be added"),
    }
    match p.next(ProvisionFact::WorktreeAdded) {
        ProvisionStep::Ready(w) => assert_eq!(w.branch.as_deref(), Some("wt/myapp/frontend")),
        _ => panic!("expected the workspace"),
    }
    let branch_is_deleted = |steps: &Vec<TeardownStep>| {
        steps.iter().any(|s| {
            matches!(s, TeardownStep::Run(v) if *v == words("git -C /base branch -D wt/myapp/frontend"))
        })
    };
    // Non-discard teardown prunes the worktree but keeps the branch.
    let keep = teardown(
        "/ws",
        Some("/base"),
        FsMode::Worktree,
        Some("wt/myapp/frontend"),
        false,
    );
    assert!(matches!(&keep[0], TeardownStep::Run(v) if v.contains(&"remove".to_string())));
    assert!(!branch_is_deleted(&keep));
    // Discard teardown also deletes the branch.
    let drop = teardown(
        "/ws",
        Some("/base"),
        FsMode::Worktree,
        Some("wt/myapp/frontend"),
        true,
    );
    assert!(branch_is_deleted(&drop));
}

#[test]
fn an_install_lives_under_its_home() {
    assert_eq!(paths::home(Some("/tmp/foo"), Some("/home/me")), "/tmp/foo");
    assert_eq!(paths::home(None, Some("/home/me")), "/home/me/.wt");
    assert_eq!(paths::home(None, None), "./.wt");
    let h = "/w";
    assert_eq!(paths::keys_dir(h), "/w/keys");
    assert_eq!(paths::secret_key_path(h), "/w/keys/id_ed25519");
    assert_eq!(paths::public_key_path(h), "/w/keys/id_ed25519.pub");
    assert_eq!(paths::data_dir(h), "/w/data");
    assert_eq!(paths::state_db_path(h), "/w/data/state.db");
    assert_eq!(paths::run_dir(h), "/w/run");
    assert_eq!(paths::daemon_sock_path(h), "/w/run/daemon.sock");
    assert_eq!(paths::daemon_pid_path(h), "/w/run/daemon.pid");
    assert_eq!(paths::logs_dir(h), "/w/logs");
    assert_eq!(paths::sessions_dir(h), "/w/sessions");
    assert_eq!(paths::session_dir(h, "g", "s"), "/w/sessions/g/s");
    assert_eq!(paths::join("/w/", "x"), "/w/x");
    assert_eq!(paths::join("/w", "/abs"), "/abs");
    assert_eq!(
        paths::install_dirs(h),
        vec!["/w/keys", "/w/data", "/w/run", "/w/logs", "/w/sessions"]
    );
}

#[test]
fn one_daemon_runs_per_install() {
    assert_eq!(pid_file(4242), "4242\n");
    assert_eq!(recorded_pid("4242\n"), Some(4242));
    assert_eq!(recorded_pid(" -7 "), Some(-7));
    assert_eq!(recorded_pid("+7"), Some(7));
    assert_eq!(recorded_pid("-+7"), None);
    assert_eq!(recorded_pid("2147483648"), None);
    assert_eq!(recorded_pid("-2147483648"), Some(i32::MIN));
    assert_eq!(recorded_pid("daemon"), None);
    assert_eq!(recorded_pid(""), None);
    assert_eq!(
        refusal_to_start(Some(4242), true).unwrap(),
        "another wt-daemon is already running (pid 4242)"
    );
    assert!(refusal_to_start(Some(4242), false).is_none());
    assert!(refusal_to_start(None, true).is_none());
}
