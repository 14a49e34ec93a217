//! Where an install keeps its files. All paths are built from the install's root directory.

use vstd::prelude::*;

verus! {

/// A path with a component put behind it. An absolute component replaces the path.
pub open spec fn joined(base: Seq<char>, part: Seq<char>) -> Seq<char> {
    if part.len() > 0 && part[0] == '/' {
        part
    } else if base.len() == 0 || base.last() == '/' {
        base + part
    } else {
        base + "/"@ + part
    }
}

/// Puts a component behind a path.
pub fn join(base: &str, part: &str) -> (r: String)
    ensures
        r@ == joined(base@, part@),
{
    let n = base.unicode_len();
    if part.unicode_len() > 0 && part.get_char(0) == '/' {
        part.to_owned()
    } else if n == 0 || base.get_char(n - 1) == '/' {
        base.to_owned().concat(part)
    } else {
        base.to_owned().concat("/").concat(part)
    }
}

/// The root directory: the one that is configured, else `.wt` in the user's home, else `.wt` in the
/// working directory.
pub open spec fn root(configured: Option<Seq<char>>, user_home: Option<Seq<char>>) -> Seq<char> {
    match configured {
        Some(p) => p,
        None => match user_home {
            Some(h) => joined(h, ".wt"@),
            None => joined("."@, ".wt"@),
        },
    }
}

/// The root directory of an install.
pub fn home(configured: Option<&str>, user_home: Option<&str>) -> (r: String)
    ensures
        r@ == root(crate::text::opt_str(configured), crate::text::opt_str(user_home)),
{
    match configured {
        Some(p) => p.to_owned(),
        None => match user_home {
            Some(h) => join(h, ".wt"),
            None => join(".", ".wt"),
        },
    }
}

pub fn keys_dir(home: &str) -> (r: String)
    ensures
        r@ == joined(home@, "keys"@),
{
    join(home, "keys")
}

pub fn secret_key_path(home: &str) -> (r: String)
    ensures
        r@ == joined(joined(home@, "keys"@), "id_ed25519"@),
{
    join(keys_dir(home).as_str(), "id_ed25519")
}

pub fn public_key_path(home: &str) -> (r: String)
    ensures
        r@ == joined(joined(home@, "keys"@), "id_ed25519.pub"@),
{
    join(keys_dir(home).as_str(), "id_ed25519.pub")
}

pub fn data_dir(home: &str) -> (r: String)
    ensures
        r@ == joined(home@, "data"@),
{
    join(home, "data")
}

pub fn state_db_path(home: &str) -> (r: String)
    ensures
        r@ == joined(joined(home@, "data"@), "state.db"@),
{
    join(data_dir(home).as_str(), "state.db")
}

pub fn run_dir(home: &str) -> (r: String)
    ensures
        r@ == joined(home@, "run"@),
{
    join(home, "run")
}

pub fn daemon_sock_path(home: &str) -> (r: String)
    ensures
        r@ == joined(joined(home@, "run"@), "daemon.sock"@),
{
    join(run_dir(home).as_str(), "daemon.sock")
}

pub fn daemon_pid_path(home: &str) -> (r: String)
    ensures
        r@ == joined(joined(home@, "run"@), "daemon.pid"@),
{
    join(run_dir(home).as_str(), "daemon.pid")
}

pub fn logs_dir(home: &str) -> (r: String)
    ensures
        r@ == joined(home@, "logs"@),
{
    join(home, "logs")
}

/// The directory under which the sessions' workspaces live.
pub fn sessions_dir(home: &str) -> (r: String)
    ensures
        r@ == joined(home@, "sessions"@),
{
    join(home, "sessions")
}

/// The workspace of one session.
pub open spec fn session_path(home: Seq<char>, group: Seq<char>, session: Seq<char>) -> Seq<char> {
    joined(joined(joined(home, "sessions"@), group), session)
}

/// The workspace of one session.
pub fn session_dir(home: &str, group: &str, session: &str) -> (r: String)
    ensures
        r@ == session_path(home@, group@, session@),
{
    join(join(sessions_dir(home).as_str(), group).as_str(), session)
}

/// The file that a session's harness writes its diagnostics to.
pub open spec fn harness_log(home: Seq<char>, group: Seq<char>, session: Seq<char>) -> Seq<char> {
    joined(joined(home, "logs"@), "harness-"@ + group + "-"@ + session + ".log"@)
}

/// The file that a session's harness writes its diagnostics to.
pub fn harness_log_path(home: &str, group: &str, session: &str) -> (r: String)
    ensures
        r@ == harness_log(home@, group@, session@),
{
    let name = "harness-".to_owned().concat(group).concat("-").concat(session).concat(".log");
    join(logs_dir(home).as_str(), name.as_str())
}

/// The directories that an install needs, in the order in which they are made.
pub fn install_dirs(home: &str) -> (r: Vec<String>)
    ensures
        crate::text::texts(r@) == seq![
            joined(home@, "keys"@),
            joined(home@, "data"@),
            joined(home@, "run"@),
            joined(home@, "logs"@),
            joined(home@, "sessions"@),
        ],
{
    let mut v: Vec<String> = Vec::new();
    v.push(keys_dir(home));
    v.push(data_dir(home));
    v.push(run_dir(home));
    v.push(logs_dir(home));
    v.push(sessions_dir(home));
    assert(crate::text::texts(v@) =~= seq![
        joined(home@, "keys"@),
        joined(home@, "data"@),
        joined(home@, "run"@),
        joined(home@, "logs"@),
        joined(home@, "sessions"@),
    ]);
    v
}

/// Whether a text names one file or directory.
pub open spec fn is_name(s: Seq<char>) -> bool {
    s.len() > 0 && !s.contains('/')
}

/// A name is put behind a directory with one slash between them.
pub proof fn law_name_is_put_behind(base: Seq<char>, name: Seq<char>)
    requires
        is_name(name),
        base.len() > 0,
        base.last() != '/',
    ensures
        joined(base, name) == base + "/"@ + name,
        joined(base.push('/'), name) == base + "/"@ + name,
        joined(Seq::empty(), name) == name,
        joined(base, seq!['/'] + name) == seq!['/'] + name,
{
    reveal_strlit("/");
    if name[0] == '/' {
        assert(name.contains(name[0]));
    }
    assert(base.push('/') + name =~= base + "/"@ + name);
    assert(Seq::<char>::empty() + name =~= name);
}

/// The workspace of a session is the directory of its name in that of its group, under the sessions of
/// the install, and its diagnostics are a file of both names under the logs of the install.
pub proof fn law_session_has_its_own_place(home: Seq<char>, group: Seq<char>, session: Seq<char>)
    requires
        home.len() > 0,
        home.last() != '/',
        is_name(group),
        is_name(session),
    ensures
        session_path(home, group, session) == home + "/"@ + "sessions"@ + "/"@ + group + "/"@ + session,
        harness_log(home, group, session) == home + "/"@ + "logs"@ + "/"@ + ("harness-"@ + group
            + "-"@ + session + ".log"@),
{
    reveal_strlit("/");
    reveal_strlit("sessions");
    reveal_strlit("logs");
    reveal_strlit("harness-");
    let dir = home + "/"@ + "sessions"@;
    assert(dir.last() == 's');
    assert(group.contains(group[0]));
    assert(group.contains(group.last()));
    assert(session.contains(session[0]));
    assert((dir + "/"@ + group).last() == group.last());
    let name = "harness-"@ + group + "-"@ + session + ".log"@;
    assert(name[0] == 'h');
    assert((home + "/"@ + "logs"@).last() == 's');
}

/// Two sessions of a group never share a workspace.
pub proof fn law_workspaces_are_apart(
    home: Seq<char>,
    group: Seq<char>,
    session: Seq<char>,
    other: Seq<char>,
)
    requires
        home.len() > 0,
        home.last() != '/',
        is_name(group),
        is_name(session),
        is_name(other),
        session != other,
    ensures
        session_path(home, group, session) != session_path(home, group, other),
{
    law_session_has_its_own_place(home, group, session);
    law_session_has_its_own_place(home, group, other);
    let dir = home + "/"@ + "sessions"@ + "/"@ + group + "/"@;
    assert((dir + session).skip(dir.len() as int) =~= session);
    assert((dir + other).skip(dir.len() as int) =~= other);
}

/// The root is the configured one, and else is called `.wt` in the user's home or the working
/// directory.
pub proof fn law_configured_root_goes_first(p: Seq<char>, h: Seq<char>, other: Option<Seq<char>>)
    requires
        h.len() > 0,
        h.last() != '/',
    ensures
        root(Some(p), other) == p,
        root(None, Some(h)) == h + "/"@ + ".wt"@,
        root(None, None) == "."@ + "/"@ + ".wt"@,
{
    reveal_strlit(".wt");
    reveal_strlit(".");
}

} // verus!
