//! The instructions that a prime coordinator is launched with.

use vstd::prelude::*;

verus! {

/// What stands before the name of the group.
pub const OPENING: &'static str = "You are the PRIME COORDINATOR of wt group `";

/// What the coordinator is, up to the group in its environment.
pub const ROLE: &'static str = "`. A human supervises you from a dashboard: every message you receive is from them, and each turn's final output is shown back to them. You do NOT write code yourself — you delegate to worker agents and report progress.\n\nYou have the `wt` CLI on your PATH and a prime token already in your environment (WT_TOKEN, WT_GROUP=`";

/// How it is driven, up to the base directory.
pub const BASE: &'static str = "`). Drive it with the Bash tool to manage workers. The base repository to spawn workers from is `";

/// How a worker is spawned, up to its directory.
pub const SPAWNING: &'static str = "`.\n\nCommands:\n- Spawn a worker (its own isolated git worktree, runs autonomously as a full coding agent):\nwt spawn --session <name> --dir ";

/// The other commands, up to the group that is listed.
pub const COMMANDS: &'static str = " --worktree --prompt \"<the worker's self-contained task>\"\n- Send a follow-up instruction to a worker:\nwt send --session <name> --kind turn_input \"<text>\"\n- Read a worker's latest output (drains the backlog; add --follow to tail live):\nwt recv --session <name>\n- List workers and their status:\nwt ls --group ";

/// How to work, up to the goal.
pub const ADVICE: &'static str = "\n\nHow to work:\n- Break the user's goal into a few worker sessions (e.g. `frontend`, `backend`) and spawn them.\n- Give each worker a clear, self-contained task; they cannot see this conversation.\n- After spawning, check on workers with `wt recv --session <name>` and summarize their progress to the user. Re-spawning a session name that already exists will fail — reuse `wt send` instead.\n- End every turn with a concise status the user will read in the dashboard.\n\nThe user's goal:\n";

/// The instructions of the coordinator of a group, ending with the goal it is given.
pub open spec fn coordinator_text(
    group: Seq<char>,
    base_dir: Seq<char>,
    goal: Seq<char>,
) -> Seq<char> {
    OPENING@ + group + ROLE@ + group + BASE@ + base_dir + SPAWNING@ + base_dir + COMMANDS@ + group
        + ADVICE@ + goal
}

/// The instructions of the coordinator of a group: how to spawn and command workers, and the goal.
pub fn coordinator_prompt(group: &str, base_dir: &str, goal: &str) -> (r: String)
    ensures
        r@ == coordinator_text(group@, base_dir@, goal@),
{
    OPENING.to_owned().concat(group).concat(ROLE).concat(group).concat(BASE).concat(base_dir).concat(
        SPAWNING,
    ).concat(base_dir).concat(COMMANDS).concat(group).concat(ADVICE).concat(goal)
}

/// The instructions begin with the group and end with the goal. In between they name the group twice
/// more, and twice the directory that workers are spawned from.
pub proof fn law_instructions_name_the_group(
    group: Seq<char>,
    base_dir: Seq<char>,
    goal: Seq<char>,
)
    ensures
        ({
            let t = coordinator_text(group, base_dir, goal);
            let g = group.len() as int;
            let d = base_dir.len() as int;
            let a = OPENING@.len() as int;
            let b = a + g + ROLE@.len();
            let c = b + g + BASE@.len();
            let e = c + d + SPAWNING@.len();
            let f = e + d + COMMANDS@.len();
            let n = f + g + ADVICE@.len();
            &&& t.subrange(0, a) == OPENING@
            &&& t.subrange(a, a + g) == group
            &&& t.subrange(b, b + g) == group
            &&& t.subrange(c, c + d) == base_dir
            &&& t.subrange(e, e + d) == base_dir
            &&& t.subrange(f, f + g) == group
            &&& t.skip(n) == goal
        }),
{
    let t = coordinator_text(group, base_dir, goal);
    let g = group.len() as int;
    let d = base_dir.len() as int;
    let a = OPENING@.len() as int;
    let b = a + g + ROLE@.len();
    let c = b + g + BASE@.len();
    let e = c + d + SPAWNING@.len();
    let f = e + d + COMMANDS@.len();
    assert(t.subrange(0, a) =~= OPENING@);
    assert(t.subrange(a, a + g) =~= group);
    assert(t.subrange(b, b + g) =~= group);
    assert(t.subrange(c, c + d) =~= base_dir);
    assert(t.subrange(e, e + d) =~= base_dir);
    assert(t.subrange(f, f + g) =~= group);
    assert(t.skip(f + g + ADVICE@.len()) =~= goal);
}

} // verus!
