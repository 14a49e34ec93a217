//! The workspaces that sessions run in: provisioning and tearing down.
//!
//! A workspace is either a git worktree of a base repository, on a branch of its own, or a fresh
//! empty folder. What is to be done is decided here, one step at a time; whoever drives the steps
//! touches the file system and runs git, and reports how it went.

use vstd::prelude::*;

use crate::ipc::FsMode;
use crate::paths;
use crate::text;

verus! {

/// A provisioned workspace.
#[derive(Debug)]
pub struct Workspace {
    /// The directory that the child runs in.
    pub path: String,
    /// The branch behind the workspace, in worktree mode.
    pub branch: Option<String>,
}

/// The model of a workspace.
#[verifier::ext_equal]
pub struct WorkspaceV {
    pub path: Seq<char>,
    pub branch: Option<Seq<char>>,
}

impl View for Workspace {
    type V = WorkspaceV;

    open spec fn view(&self) -> WorkspaceV {
        WorkspaceV { path: self.path@, branch: text::opt_text(self.branch) }
    }
}

impl Workspace {
    /// A copy of the workspace's description.
    pub fn copied(&self) -> (r: Self)
        ensures
            r@ == self@,
    {
        Workspace { path: self.path.clone(), branch: text::opt_text_copy(&self.branch) }
    }
}

/// The branch of a session's worktree.
pub open spec fn branch_of(group: Seq<char>, session: Seq<char>) -> Seq<char> {
    "wt/"@ + group + "/"@ + session
}

/// The branch of a session's worktree.
pub fn session_branch(group: &str, session: &str) -> (r: String)
    ensures
        r@ == branch_of(group@, session@),
{
    "wt/".to_owned().concat(group).concat("/").concat(session)
}

/// What is to be done next to provision a workspace.
pub enum ProvisionStep {
    /// See whether the workspace's path exists.
    Probe,
    /// Make the directories above the workspace.
    MakeParent,
    /// Run this command to see whether the base directory is in a git repository.
    ProbeRepo(Vec<String>),
    /// Run this command to add the worktree.
    AddWorktree(Vec<String>),
    /// Make the workspace's directory.
    MakeDir,
    /// The workspace is there.
    Ready(Workspace),
    /// There will be no workspace.
    Refused(String),
}

/// The model of a step.
pub enum ProvisionV {
    Probe,
    MakeParent,
    ProbeRepo(Seq<Seq<char>>),
    AddWorktree(Seq<Seq<char>>),
    MakeDir,
    Ready(WorkspaceV),
    Refused(Seq<char>),
}

impl View for ProvisionStep {
    type V = ProvisionV;

    open spec fn view(&self) -> ProvisionV {
        match *self {
            ProvisionStep::Probe => ProvisionV::Probe,
            ProvisionStep::MakeParent => ProvisionV::MakeParent,
            ProvisionStep::ProbeRepo(v) => ProvisionV::ProbeRepo(text::texts(v@)),
            ProvisionStep::AddWorktree(v) => ProvisionV::AddWorktree(text::texts(v@)),
            ProvisionStep::MakeDir => ProvisionV::MakeDir,
            ProvisionStep::Ready(w) => ProvisionV::Ready(w@),
            ProvisionStep::Refused(m) => ProvisionV::Refused(m@),
        }
    }
}

/// How a step went.
pub enum ProvisionFact {
    /// Whether the workspace's path exists.
    Exists(bool),
    /// The directories above the workspace are there.
    ParentMade,
    /// The directory of this name above the workspace could not be made.
    ParentFailed(String),
    /// Whether the base directory is in a git repository.
    IsRepo(bool),
    /// The worktree was added.
    WorktreeAdded,
    /// Git refused, and wrote this.
    WorktreeRefused(String),
    /// Git could not be run.
    GitMissing,
    /// The workspace's directory was made.
    DirMade,
    /// The workspace's directory could not be made.
    DirFailed,
}

/// What a workspace is provisioned from.
pub struct ProvisionPlan {
    pub ws: String,
    pub branch: String,
    pub base_dir: String,
    pub mode: FsMode,
}

/// Whether a plan is the one for the workspace of a session.
pub open spec fn is_plan_for(
    plan: ProvisionPlan,
    home: Seq<char>,
    group: Seq<char>,
    session: Seq<char>,
    base_dir: Seq<char>,
    mode: FsMode,
) -> bool {
    &&& plan.ws@ == paths::session_path(home, group, session)
    &&& plan.branch@ == branch_of(group, session)
    &&& plan.base_dir@ == base_dir
    &&& plan.mode == mode
}

/// The command that tells whether a directory is in a git repository.
pub open spec fn repo_probe(base: Seq<char>) -> Seq<Seq<char>> {
    seq!["git"@, "-C"@, base, "rev-parse"@, "--is-inside-work-tree"@]
}

/// The command that adds a worktree.
pub open spec fn worktree_add(base: Seq<char>, ws: Seq<char>, branch: Seq<char>) -> Seq<Seq<char>> {
    seq!["git"@, "-C"@, base, "worktree"@, "add"@, ws, "-b"@, branch]
}

/// The command that removes a worktree, even one with changes in it.
pub open spec fn worktree_remove(base: Seq<char>, ws: Seq<char>) -> Seq<Seq<char>> {
    seq!["git"@, "-C"@, base, "worktree"@, "remove"@, "--force"@, ws]
}

/// The command that deletes a branch.
pub open spec fn branch_delete(base: Seq<char>, branch: Seq<char>) -> Seq<Seq<char>> {
    seq!["git"@, "-C"@, base, "branch"@, "-D"@, branch]
}

/// What follows a fact when a workspace is provisioned.
pub open spec fn provision_next(plan: ProvisionPlan, fact: ProvisionFact) -> ProvisionV {
    match fact {
        ProvisionFact::Exists(true) => ProvisionV::Refused(
            "workspace path already exists: "@ + plan.ws@,
        ),
        ProvisionFact::Exists(false) => ProvisionV::MakeParent,
        ProvisionFact::ParentFailed(p) => ProvisionV::Refused("create workspace parent "@ + p@),
        ProvisionFact::ParentMade => match plan.mode {
            FsMode::Worktree => ProvisionV::ProbeRepo(repo_probe(plan.base_dir@)),
            FsMode::New => ProvisionV::MakeDir,
        },
        ProvisionFact::IsRepo(true) => ProvisionV::AddWorktree(
            worktree_add(plan.base_dir@, plan.ws@, plan.branch@),
        ),
        ProvisionFact::IsRepo(false) => ProvisionV::Refused(
            "--worktree requires a git repository at "@ + plan.base_dir@
                + " (use --new for a fresh folder)"@,
        ),
        ProvisionFact::WorktreeAdded => ProvisionV::Ready(
            WorkspaceV { path: plan.ws@, branch: Some(plan.branch@) },
        ),
        ProvisionFact::WorktreeRefused(e) => ProvisionV::Refused(
            "git worktree add failed: "@ + text::trimmed(e@),
        ),
        ProvisionFact::GitMissing => ProvisionV::Refused("spawn git worktree add"@),
        ProvisionFact::DirMade => ProvisionV::Ready(WorkspaceV { path: plan.ws@, branch: None }),
        ProvisionFact::DirFailed => ProvisionV::Refused("create workspace "@ + plan.ws@),
    }
}

/// Pushes a copy of `s`.
fn put(v: &mut Vec<String>, s: &str)
    ensures
        text::texts(final(v)@) == text::texts(old(v)@).push(s@),
{
    v.push(s.to_owned());
    assert(text::texts(v@) =~= text::texts(old(v)@).push(s@));
}

fn git_in(base: &str) -> (v: Vec<String>)
    ensures
        text::texts(v@) == seq!["git"@, "-C"@, base@],
{
    let mut v: Vec<String> = Vec::new();
    put(&mut v, "git");
    put(&mut v, "-C");
    put(&mut v, base);
    assert(text::texts(v@) =~= seq!["git"@, "-C"@, base@]);
    v
}

impl ProvisionPlan {
    /// The plan for the workspace of a session in an install.
    pub fn for_session(
        home: &str,
        group: &str,
        session: &str,
        base_dir: &str,
        mode: FsMode,
    ) -> (r: Self)
        ensures
            is_plan_for(r, home@, group@, session@, base_dir@, mode),
    {
        ProvisionPlan {
            ws: paths::session_dir(home, group, session),
            branch: session_branch(group, session),
            base_dir: base_dir.to_owned(),
            mode,
        }
    }

    /// What follows when a fact is known. The first step is to probe the path.
    pub fn next(&self, fact: ProvisionFact) -> (r: ProvisionStep)
        ensures
            r@ == provision_next(*self, fact),
    {
        match fact {
            ProvisionFact::Exists(there) => if there {
                ProvisionStep::Refused(
                    "workspace path already exists: ".to_owned().concat(self.ws.as_str()),
                )
            } else {
                ProvisionStep::MakeParent
            },
            ProvisionFact::ParentFailed(p) => ProvisionStep::Refused(
                "create workspace parent ".to_owned().concat(p.as_str()),
            ),
            ProvisionFact::ParentMade => match self.mode {
                FsMode::Worktree => {
                    let mut v = git_in(self.base_dir.as_str());
                    put(&mut v, "rev-parse");
                    put(&mut v, "--is-inside-work-tree");
                    assert(text::texts(v@) =~= repo_probe(self.base_dir@));
                    ProvisionStep::ProbeRepo(v)
                },
                FsMode::New => ProvisionStep::MakeDir,
            },
            ProvisionFact::IsRepo(yes) => if yes {
                let mut v = git_in(self.base_dir.as_str());
                put(&mut v, "worktree");
                put(&mut v, "add");
                put(&mut v, self.ws.as_str());
                put(&mut v, "-b");
                put(&mut v, self.branch.as_str());
                assert(text::texts(v@) =~= worktree_add(self.base_dir@, self.ws@, self.branch@));
                ProvisionStep::AddWorktree(v)
            } else {
                ProvisionStep::Refused(
                    "--worktree requires a git repository at ".to_owned().concat(
                        self.base_dir.as_str(),
                    ).concat(" (use --new for a fresh folder)"),
                )
            },
            ProvisionFact::WorktreeAdded => ProvisionStep::Ready(
                Workspace { path: self.ws.clone(), branch: Some(self.branch.clone()) },
            ),
            ProvisionFact::WorktreeRefused(e) => ProvisionStep::Refused(
                "git worktree add failed: ".to_owned().concat(text::trim(e.as_str())),
            ),
            ProvisionFact::GitMissing => ProvisionStep::Refused(
                "spawn git worktree add".to_owned(),
            ),
            ProvisionFact::DirMade => ProvisionStep::Ready(
                Workspace { path: self.ws.clone(), branch: None },
            ),
            ProvisionFact::DirFailed => ProvisionStep::Refused(
                "create workspace ".to_owned().concat(self.ws.as_str()),
            ),
        }
    }
}

/// One step of tearing a workspace down.
pub enum TeardownStep {
    /// Run this command; whether it succeeds does not matter.
    Run(Vec<String>),
    /// Remove the directory if it is there. Where `strict`, a failure is reported.
    RemoveDir { path: String, strict: bool },
}

/// The model of a step.
pub enum TeardownV {
    Run(Seq<Seq<char>>),
    RemoveDir { path: Seq<char>, strict: bool },
}

impl View for TeardownStep {
    type V = TeardownV;

    open spec fn view(&self) -> TeardownV {
        match *self {
            TeardownStep::Run(v) => TeardownV::Run(text::texts(v@)),
            TeardownStep::RemoveDir { path, strict } => TeardownV::RemoveDir { path: path@, strict },
        }
    }
}

/// What is done to tear a workspace down. A worktree is removed from its repository; its branch
/// stays unless the workspace is discarded. A folder stays unless it is discarded.
pub open spec fn teardown_of(
    ws: Seq<char>,
    base_dir: Option<Seq<char>>,
    mode: FsMode,
    branch: Option<Seq<char>>,
    discard: bool,
) -> Seq<TeardownV> {
    match mode {
        FsMode::Worktree => {
            let remove = match base_dir {
                Some(base) => seq![TeardownV::Run(worktree_remove(base, ws))],
                None => Seq::empty(),
            };
            let delete = if discard && base_dir is Some && branch is Some {
                seq![TeardownV::Run(branch_delete(base_dir->0, branch->0))]
            } else {
                Seq::empty()
            };
            let wipe = if discard {
                seq![TeardownV::RemoveDir { path: ws, strict: false }]
            } else {
                Seq::empty()
            };
            remove + delete + wipe
        },
        FsMode::New => if discard {
            seq![TeardownV::RemoveDir { path: ws, strict: true }]
        } else {
            Seq::empty()
        },
    }
}

/// The steps that tear a workspace down.
pub fn teardown(
    ws: &str,
    base_dir: Option<&str>,
    mode: FsMode,
    branch: Option<&str>,
    discard: bool,
) -> (r: Vec<TeardownStep>)
    ensures
        crate::table::rows(r@) == teardown_of(
            ws@,
            text::opt_str(base_dir),
            mode,
            text::opt_str(branch),
            discard,
        ),
{
    let mut steps: Vec<TeardownStep> = Vec::new();
    match mode {
        FsMode::Worktree => {
            if let Some(base) = base_dir {
                let mut v = git_in(base);
                put(&mut v, "worktree");
                put(&mut v, "remove");
                put(&mut v, "--force");
                put(&mut v, ws);
                assert(text::texts(v@) =~= worktree_remove(base@, ws@));
                steps.push(TeardownStep::Run(v));
                if discard {
                    if let Some(b) = branch {
                        let mut w = git_in(base);
                        put(&mut w, "branch");
                        put(&mut w, "-D");
                        put(&mut w, b);
                        assert(text::texts(w@) =~= branch_delete(base@, b@));
                        steps.push(TeardownStep::Run(w));
                    }
                }
            }
            if discard {
                steps.push(TeardownStep::RemoveDir { path: ws.to_owned(), strict: false });
            }
        },
        FsMode::New => {
            if discard {
                steps.push(TeardownStep::RemoveDir { path: ws.to_owned(), strict: true });
            }
        },
    }
    assert(crate::table::rows(steps@) =~= teardown_of(
        ws@,
        text::opt_str(base_dir),
        mode,
        text::opt_str(branch),
        discard,
    ));
    steps
}

/// Tearing a workspace down without discarding it deletes no branch and no directory: what the child
/// did stays there to be merged.
pub proof fn law_teardown_keeps_work(
    ws: Seq<char>,
    base_dir: Option<Seq<char>>,
    mode: FsMode,
    branch: Option<Seq<char>>,
)
    ensures
        forall|i: int|
            #![trigger teardown_of(ws, base_dir, mode, branch, false)[i]]
            0 <= i < teardown_of(ws, base_dir, mode, branch, false).len() ==> mode is Worktree
                && base_dir is Some && teardown_of(ws, base_dir, mode, branch, false)[i]
                == TeardownV::Run(worktree_remove(base_dir->0, ws)),
{
}

/// Discarding a workspace always ends with the removal of its directory, and deletes its branch
/// where it has one.
pub proof fn law_discard_removes_all(
    ws: Seq<char>,
    base_dir: Option<Seq<char>>,
    mode: FsMode,
    branch: Option<Seq<char>>,
)
    ensures
        ({
            let steps = teardown_of(ws, base_dir, mode, branch, true);
            &&& steps.len() > 0
            &&& steps.last() matches TeardownV::RemoveDir { path, .. } && path == ws
            &&& mode is Worktree && base_dir is Some && branch is Some ==> steps.contains(
                TeardownV::Run(branch_delete(base_dir->0, branch->0)),
            )
        }),
{
    let steps = teardown_of(ws, base_dir, mode, branch, true);
    if mode is Worktree && base_dir is Some && branch is Some {
        assert(steps[1] == TeardownV::Run(branch_delete(base_dir->0, branch->0)));
    }
}

/// A path that exists is never provisioned over, and only a repository is made a worktree of.
pub proof fn law_provision_refuses(plan: ProvisionPlan)
    ensures
        provision_next(plan, ProvisionFact::Exists(true)) is Refused,
        provision_next(plan, ProvisionFact::IsRepo(false)) is Refused,
{
}

/// Whether a step takes a worktree out of its repository.
pub open spec fn removes_worktree(step: TeardownV) -> bool {
    step matches TeardownV::Run(c) && c.len() > 4 && c[3] == "worktree"@ && c[4] == "remove"@
}

/// Whether a step deletes a branch.
pub open spec fn deletes_branch(step: TeardownV) -> bool {
    step matches TeardownV::Run(c) && c.len() > 3 && c[3] == "branch"@
}

proof fn lemma_git_words()
    ensures
        "worktree"@ != "branch"@,
        "worktree"@ != "rev-parse"@,
        "remove"@ != "add"@,
{
    reveal_strlit("worktree");
    reveal_strlit("branch");
    reveal_strlit("rev-parse");
    reveal_strlit("remove");
    reveal_strlit("add");
    assert("worktree"@.len() == 8 && "branch"@.len() == 6 && "rev-parse"@.len() == 9
        && "remove"@.len() == 6 && "add"@.len() == 3);
}

/// A worktree is taken out of the repository that it belongs to, once and before anything else, and
/// what is taken out is the workspace, even with changes in it: neither the repository itself nor
/// anything else.
pub proof fn law_teardown_removes_the_worktree(
    ws: Seq<char>,
    base: Seq<char>,
    branch: Option<Seq<char>>,
    discard: bool,
)
    ensures
        ({
            let steps = teardown_of(ws, Some(base), FsMode::Worktree, branch, discard);
            &&& steps.len() > 0
            &&& removes_worktree(steps[0])
            &&& forall|i: int| 0 < i < steps.len() ==> !removes_worktree(#[trigger] steps[i])
            &&& steps[0] matches TeardownV::Run(c) && {
                &&& c[0] == "git"@
                &&& c[1] == "-C"@
                &&& c[2] == base
                &&& c[5] == "--force"@
                &&& c.last() == ws
                &&& c.len() == 7
            }
        }),
{
    lemma_git_words();
}

/// A branch is deleted only where the workspace is discarded, and then it is the workspace's, in the
/// repository that it belongs to, and after the worktree on it is gone. A directory is removed only
/// where the workspace is discarded, and then it is the workspace's own; that it cannot be removed is
/// reported for a plain folder.
pub proof fn law_teardown_destroys_only_what_is_discarded(
    ws: Seq<char>,
    base_dir: Option<Seq<char>>,
    mode: FsMode,
    branch: Option<Seq<char>>,
    discard: bool,
    i: int,
)
    ensures
        ({
            let steps = teardown_of(ws, base_dir, mode, branch, discard);
            let in_repo = mode is Worktree && base_dir is Some;
            let count = (if in_repo {
                1int
            } else {
                0
            }) + (if in_repo && discard && branch is Some {
                1int
            } else {
                0
            }) + (if discard {
                1int
            } else {
                0
            });
            &&& steps.len() == count
            &&& discard ==> (steps.last() matches TeardownV::RemoveDir { path, strict } && path
                == ws && strict == (mode is New))
            &&& 0 <= i < steps.len() && steps[i] is RemoveDir ==> discard && i == steps.len() - 1
            &&& 0 <= i < steps.len() && deletes_branch(steps[i]) ==> {
                &&& discard && in_repo && branch is Some && i == 1
                &&& steps[i]->Run_0 == seq![
                    "git"@,
                    "-C"@,
                    base_dir->0,
                    "branch"@,
                    "-D"@,
                    branch->0,
                ]
            }
            &&& in_repo && discard && branch is Some ==> deletes_branch(steps[1])
        }),
{
    lemma_git_words();
}

/// The worktree that is added is the one that the child runs in and the one that is removed again: in
/// the same repository, at the same path, on the branch that is deleted when it is discarded.
pub proof fn law_worktree_is_removed_where_it_was_added(plan: ProvisionPlan, discard: bool)
    ensures
        ({
            let added = provision_next(plan, ProvisionFact::IsRepo(true));
            let ready = provision_next(plan, ProvisionFact::WorktreeAdded);
            &&& added matches ProvisionV::AddWorktree(add) && ready matches ProvisionV::Ready(w) && {
                let steps = teardown_of(
                    w.path,
                    Some(plan.base_dir@),
                    FsMode::Worktree,
                    w.branch,
                    discard,
                );
                &&& add.len() == 8
                &&& add[0] == "git"@ && add[1] == "-C"@ && add[2] == plan.base_dir@
                &&& add[3] == "worktree"@ && add[4] == "add"@ && add[6] == "-b"@
                &&& add[5] == plan.ws@
                &&& add[7] == plan.branch@
                &&& w.path == add[5]
                &&& w.branch == Some(add[7])
                &&& steps[0]->Run_0[2] == add[2]
                &&& steps[0]->Run_0[6] == add[5]
                &&& discard ==> steps[1]->Run_0[2] == add[2] && steps[1]->Run_0[5] == add[7]
            }
        }),
{
}

/// A workspace is provisioned step by step at the path that was planned: the path must be free, the
/// directories above it are made, and then a worktree of the base directory's repository, or a plain
/// folder without a branch, as the mode asks for.
pub proof fn law_workspace_is_made_as_planned(plan: ProvisionPlan, fact: ProvisionFact)
    ensures
        provision_next(plan, ProvisionFact::Exists(false)) is MakeParent,
        plan.mode is New ==> provision_next(plan, ProvisionFact::ParentMade) is MakeDir,
        plan.mode is Worktree ==> (provision_next(
            plan,
            ProvisionFact::ParentMade,
        ) matches ProvisionV::ProbeRepo(c) && c.len() == 5 && c[0] == "git"@ && c[1] == "-C"@
            && c[2] == plan.base_dir@ && c[3] == "rev-parse"@ && c[4]
            == "--is-inside-work-tree"@),
        provision_next(plan, ProvisionFact::DirMade) matches ProvisionV::Ready(w) && w.path
            == plan.ws@ && w.branch is None,
        provision_next(plan, fact) matches ProvisionV::Ready(w) ==> w.path == plan.ws@ && (
        w.branch is Some ==> fact is WorktreeAdded) && (fact is WorktreeAdded || fact is DirMade),
        provision_next(plan, fact) is AddWorktree ==> fact == ProvisionFact::IsRepo(true),
        provision_next(plan, fact) is Refused <==> {
            ||| fact == ProvisionFact::Exists(true)
            ||| fact is ParentFailed
            ||| fact == ProvisionFact::IsRepo(false)
            ||| fact is WorktreeRefused
            ||| fact is GitMissing
            ||| fact is DirFailed
        },
{
}

/// The branch of a session is told from that of any other session of its group, and is of its group.
pub proof fn law_branches_are_apart(group: Seq<char>, session: Seq<char>, other: Seq<char>)
    ensures
        branch_of(group, session) == branch_of(group, other) ==> session == other,
        branch_of(group, session) == "wt/"@ + group + "/"@ + session,
{
    let a = "wt/"@ + group + "/"@;
    if branch_of(group, session) == branch_of(group, other) {
        let n = a.len() as int;
        assert((a + session).skip(n) =~= session);
        assert((a + other).skip(n) =~= other);
    }
}

/// The workspace of a session is planned at the session's own place in the install, on the session's own
/// branch, from the directory and in the mode that are given.
pub proof fn law_plan_is_for_the_session(
    plan: ProvisionPlan,
    home: Seq<char>,
    group: Seq<char>,
    session: Seq<char>,
    base_dir: Seq<char>,
    mode: FsMode,
)
    requires
        is_plan_for(plan, home, group, session, base_dir, mode),
    ensures
        plan.ws@ == paths::session_path(home, group, session),
        plan.branch@ == "wt/"@ + group + "/"@ + session,
        plan.base_dir@ == base_dir,
        plan.mode == mode,
{
}

/// Why a workspace is refused is said, with the path or the directory that it is about, or with what git
/// said.
pub proof fn law_workspace_refusals_say_why(plan: ProvisionPlan, fact: ProvisionFact)
    ensures
        match provision_next(plan, fact) {
            ProvisionV::Refused(m) => match fact {
                ProvisionFact::Exists(_) => m == "workspace path already exists: "@ + plan.ws@,
                ProvisionFact::ParentFailed(p) => m == "create workspace parent "@ + p@,
                ProvisionFact::IsRepo(_) => m == "--worktree requires a git repository at "@
                    + plan.base_dir@ + " (use --new for a fresh folder)"@,
                ProvisionFact::WorktreeRefused(e) => m == "git worktree add failed: "@
                    + text::trimmed(e@),
                ProvisionFact::GitMissing => m == "spawn git worktree add"@,
                ProvisionFact::DirFailed => m == "create workspace "@ + plan.ws@,
                _ => false,
            },
            _ => true,
        },
{
}

} // verus!
