//! What the command line asks of the daemon, for every command and whatever stands around it.

use vstd::prelude::*;

use crate::bus;
use crate::cli;
use crate::cli::CliError;
use crate::cli::SendPlan;
use crate::cli::SpawnFlags;
use crate::codec;
use crate::codec::Base32Fault;
use crate::codec::HexFault;
use crate::commands;
use crate::commands::Command;
use crate::commands::Plan;
use crate::commands::Surroundings;
use crate::daemon;
use crate::display::Await;
use crate::display::Listing;
use crate::ipc::AgentMsgKind;
use crate::ipc::FsMode;
use crate::ipc::IpcErrorCode;
use crate::ipc::IpcRequest;
use crate::ipc::PeerFilter;
use crate::ipc::SelectorV;
use crate::node;
use crate::node::NodeIdParseError;
use crate::text;
use crate::ticket;
use crate::ticket::TicketError;
use crate::token::Cap;

verus! {

// ----- durations and moments -----

/// So many seconds, minutes, hours or days are read as so many seconds, where they fit.
pub proof fn law_units_are_seconds(n: u64)
    ensures
        ({
            let number = text::decimal_text(n as nat);
            &&& cli::duration_secs(number.push('s')) == Some(n)
            &&& n * 60 <= u64::MAX ==> cli::duration_secs(number.push('m')) == Some((n * 60) as u64)
            &&& n * 3600 <= u64::MAX ==> cli::duration_secs(number.push('h')) == Some(
                (n * 3600) as u64,
            )
            &&& n * 86400 <= u64::MAX ==> cli::duration_secs(number.push('d')) == Some(
                (n * 86400) as u64,
            )
        }),
{
    lemma_units(n, 's', 1);
    lemma_units(n, 'm', 60);
    lemma_units(n, 'h', 3600);
    lemma_units(n, 'd', 86400);
}

proof fn lemma_units(n: u64, unit: char, secs: nat)
    requires
        cli::unit_secs(unit) == Some(secs),
    ensures
        n * secs <= u64::MAX ==> cli::duration_secs(text::decimal_text(n as nat).push(unit))
            == Some((n * secs) as u64),
{
    if n * secs <= u64::MAX {
        cli::law_duration_is_read(n, unit);
    }
}

/// What is read as a duration is a number and one of the four units, with white space around it or not.
pub proof fn law_durations_have_a_unit(s: Seq<char>)
    ensures
        cli::duration_secs(s) matches Some(n) ==> {
            let t = text::trimmed(s);
            &&& t.len() >= 2
            &&& text::parsed_u64(t.drop_last()) matches Some(k) && {
                ||| t.last() == 's' && n == k
                ||| t.last() == 'm' && n == k * 60
                ||| t.last() == 'h' && n == k * 3600
                ||| t.last() == 'd' && n == k * 86400
            }
        },
        cli::duration_secs(s) is None && text::trimmed(s).len() > 0 ==> {
            let t = text::trimmed(s);
            let number = text::parsed_u64(t.drop_last());
            ||| number is None
            ||| t.last() != 's' && t.last() != 'm' && t.last() != 'h' && t.last() != 'd'
            ||| t.last() == 'm' && number->0 * 60 > u64::MAX
            ||| t.last() == 'h' && number->0 * 3600 > u64::MAX
            ||| t.last() == 'd' && number->0 * 86400 > u64::MAX
        },
{
    let t = text::trimmed(s);
    if t.len() == 1 {
        assert(t.drop_last() =~= Seq::<char>::empty());
    }
    if t.len() > 0 && text::parsed_u64(t.drop_last()) is Some {
        let n = text::parsed_u64(t.drop_last())->0;
        assert(n * 1nat == n);
    }
}

/// What is wrong with a duration is told, the first of these: that there is nothing, that the number is
/// none, that the unit is not known, or that it is too large.
pub proof fn law_duration_faults_are_told(s: Seq<char>, e: CliError)
    requires
        cli::duration_fault(s, e),
    ensures
        ({
            let t = text::trimmed(s);
            let number = text::parsed_u64(t.drop_last());
            let unit = t.last();
            &&& t.len() == 0 ==> e is EmptyDuration
            &&& t.len() > 0 && number is None ==> (e matches CliError::BadDurationNumber(n) && n@
                == t.drop_last())
            &&& t.len() > 0 && number is Some && unit != 's' && unit != 'm' && unit != 'h' && unit
                != 'd' ==> (e matches CliError::UnknownUnit(u) && u@ == seq![unit])
            &&& t.len() > 0 && number is Some && (unit == 's' || unit == 'm' || unit == 'h' || unit
                == 'd') ==> e is DurationTooLarge
        }),
{
}

/// A duration reaches back to the moment that lies so long before now, and not beyond the epoch.
pub proof fn law_duration_reaches_back(since: Option<Seq<char>>, now_ms: u64, since_ms: Option<u64>)
    requires
        cli::reaches_back(since, now_ms, since_ms),
    ensures
        since_ms is Some == since is Some,
        since matches Some(d) ==> {
            &&& cli::duration_secs(d) matches Some(n) && {
                ||| since_ms->0 + n * 1000 == now_ms
                ||| n * 1000 > now_ms && since_ms->0 == 0
            }
        },
{
}

/// What was less than a second ago, or is yet to come, is now; else it is told in whole seconds below a
/// minute, in whole minutes below an hour, and in whole hours from then on.
pub proof fn law_time_is_told_in_whole_units(ms: u64, later: u64, n: u64, rest: u64)
    ensures
        later < 1000 && ms + later <= u64::MAX ==> cli::ago_text(ms, (ms + later) as u64) == "now"@,
        cli::ago_text(ms, ms) == "now"@,
        later < ms ==> cli::ago_text(ms, later) == "now"@,
        1 <= n < 60 && rest < 1000 && ms + n * 1000 + rest <= u64::MAX ==> cli::ago_text(
            ms,
            (ms + n * 1000 + rest) as u64,
        ) == text::decimal_text(n as nat) + "s ago"@,
        1 <= n < 60 && rest < 60_000 && ms + n * 60_000 + rest <= u64::MAX ==> cli::ago_text(
            ms,
            (ms + n * 60_000 + rest) as u64,
        ) == text::decimal_text(n as nat) + "m ago"@,
        1 <= n && rest < 3_600_000 && ms + n * 3_600_000 + rest <= u64::MAX ==> cli::ago_text(
            ms,
            (ms + n * 3_600_000 + rest) as u64,
        ) == text::decimal_text(n as nat) + "h ago"@,
{
}

// ----- arguments -----

/// A flag goes before the variable that stands for it; what is empty counts as not given.
pub proof fn law_flag_goes_before_the_variable(flag: Option<String>, variable: Option<String>)
    ensures
        ({
            let g = commands::given(flag, variable);
            let flagged = flag is Some && flag->0@.len() > 0;
            let set = variable is Some && variable->0@.len() > 0;
            &&& flagged ==> g == Some(flag->0@)
            &&& !flagged && set ==> g == Some(variable->0@)
            &&& !flagged && !set ==> g is None
        }),
{
}

/// A text refers to a peer by the identifier that it spells out, and by name where it spells none.
pub proof fn law_reference_selects(s: Seq<char>)
    ensures
        match cli::selected(s) {
            SelectorV::NodeId(n) => codec::hex_bytes(s) == Some(n) && s.len() == 64,
            SelectorV::Name(n) => n == s && (s.len() != 64 || codec::hex_bytes(s) is None),
        },
{
}

/// A line that is typed is sent without the line ends at its end, and else as it is.
pub proof fn law_line_is_sent_without_its_end(s: Seq<char>)
    ensures
        ({
            let t = cli::without_line_ends(s);
            &&& t.len() <= s.len()
            &&& t == s.take(t.len() as int)
            &&& t.len() > 0 ==> t.last() != '\n'
            &&& forall|i: int| t.len() <= i < s.len() ==> #[trigger] s[i] == '\n'
        }),
    decreases s.len(),
{
    if s.len() > 0 && s.last() == '\n' {
        law_line_is_sent_without_its_end(s.drop_last());
        let t = cli::without_line_ends(s);
        assert forall|i: int| t.len() <= i < s.len() implies #[trigger] s[i] == '\n' by {
            if i < s.len() - 1 {
                assert(s.drop_last()[i] == s[i]);
            }
        }
        assert(s.drop_last().take(t.len() as int) =~= s.take(t.len() as int));
    } else {
        assert(s.take(s.len() as int) =~= s);
    }
}

// ----- commands -----

/// A spawn asks for the session, the directory, the prompt and the switches that its flags give, in the
/// group and under the token that are given. Its workspace is a worktree where that is asked for, or
/// where nothing is asked for in a repository, and else a new directory.
pub proof fn law_spawn_asks_as_flagged(
    flags: SpawnFlags,
    group: Option<String>,
    token: Option<String>,
    around: Surroundings,
    request: IpcRequest,
    awaits: Await,
    heading: Option<Listing>,
)
    requires
        commands::planned(
            Command::Spawn { flags, group, token },
            around,
            Ok(Plan::Ask { request, awaits, heading }),
        ),
    ensures
        awaits == Await::Spawn,
        request is Spawn,
        Some(request->Spawn_token@) == commands::given(token, around.token),
        Some(request->Spawn_group@) == commands::given(group, around.group),
        request->Spawn_session@ == flags.session@,
        request->base_dir@ == flags.dir@,
        flags.worktree ==> request->fs_mode == FsMode::Worktree && !flags.new,
        flags.new ==> request->fs_mode == FsMode::New,
        !flags.worktree && !flags.new ==> request->fs_mode == if flags.in_repository {
            FsMode::Worktree
        } else {
            FsMode::New
        },
        request->branch is None,
        request->label is None,
        request->harness_argv is None,
        flags.prompt is Some ==> request->prompt@ == flags.prompt->0@,
        flags.prompt is None ==> request->prompt@.len() == 0,
        flags.idle_timeout is None ==> request->idle_timeout_secs is None,
        flags.idle_timeout is Some ==> request->idle_timeout_secs is Some
            && request->idle_timeout_secs == cli::duration_secs(flags.idle_timeout->0@),
        flags.permission_mode is Some ==> text::opt_text(request->Spawn_permission_mode) == Some(
            flags.permission_mode->0@,
        ),
        flags.permission_mode is None && flags.plan ==> text::opt_text(
            request->Spawn_permission_mode,
        ) == Some("plan"@),
        flags.permission_mode is None && !flags.plan ==> request->Spawn_permission_mode is None,
        request->Spawn_skip_permissions == flags.skip_permissions,
        request->Spawn_trace == flags.trace,
        request->Spawn_coordinator == flags.coordinator,
{
}

/// A spawn is turned down exactly where it lacks a group or a token, asks for both kinds of workspace,
/// or gives a time that cannot be read; the first of these is told.
pub proof fn law_spawn_is_turned_down(
    flags: SpawnFlags,
    group: Option<String>,
    token: Option<String>,
    around: Surroundings,
    r: Result<Plan, CliError>,
)
    requires
        commands::planned(Command::Spawn { flags, group, token }, around, r),
    ensures
        ({
            let in_no_group = commands::given(group, around.group) is None;
            let without_token = commands::given(token, around.token) is None;
            let both = flags.worktree && flags.new;
            let untimed = flags.idle_timeout is Some && cli::duration_secs(
                flags.idle_timeout->0@,
            ) is None;
            &&& r is Err == (in_no_group || without_token || both || untimed)
            &&& in_no_group ==> r->Err_0 is NoGroup
            &&& !in_no_group && without_token ==> r->Err_0 is NoToken
            &&& !in_no_group && !without_token && both ==> r->Err_0 is BothModes
        }),
{
}

/// A message goes onto the bus where a session and a token are given, and else to the peer that is
/// named, on the channel that is named or the usual one. Its body is the message, or on the bus, where
/// there is none, what stands in the peer's place.
pub proof fn law_message_goes_where_it_is_sent(
    peer: Option<String>,
    message: Option<String>,
    channel: Option<String>,
    session: Option<String>,
    token: Option<String>,
    kind: String,
    around: Surroundings,
    r: Result<Plan, CliError>,
)
    requires
        commands::planned(
            Command::Send { peer, message, channel, session, token, kind },
            around,
            r,
        ),
    ensures
        ({
            let s = commands::given(session, around.session);
            let t = commands::given(token, around.token);
            if s is Some && t is Some {
                match r {
                    Ok(Plan::Send(SendPlan::Agent { token: bearer, session: to, kind: k, body })) => {
                        &&& bearer@ == t->0
                        &&& to@ == s->0
                        &&& bus::kind_name(k) == kind@
                        &&& message is Some ==> text::opt_text(body) == Some(message->0@)
                        &&& message is None ==> text::opt_text(body) == text::opt_text(peer)
                    },
                    Ok(_) => false,
                    Err(e) => e is UnknownKind && kind@ != "user"@ && kind@ != "turn_input"@ && kind@
                        != "turn_output"@ && kind@ != "control"@ && kind@ != "trace"@,
                }
            } else if peer is Some {
                r matches Ok(Plan::Send(SendPlan::Peer { peer: to, channel: c, body })) && {
                    &&& to@ == cli::selected(peer->0@)
                    &&& channel is Some ==> c@ == channel->0@
                    &&& channel is None ==> c@ == "default"@
                    &&& text::opt_text(body) == text::opt_text(message)
                }
            } else {
                r matches Err(e) && e is NoPeer
            }
        }),
{
    assert(bus::kind_name(AgentMsgKind::User) == "user"@);
    assert(bus::kind_name(AgentMsgKind::TurnInput) == "turn_input"@);
    assert(bus::kind_name(AgentMsgKind::TurnOutput) == "turn_output"@);
    assert(bus::kind_name(AgentMsgKind::Control) == "control"@);
    assert(bus::kind_name(AgentMsgKind::Trace) == "trace"@);
}

/// Whoever receives with a token reads the bus, in the session that is given, and consumes what it
/// reads unless it asks for everything or for a stretch of time. Whoever receives without one reads what
/// comes from peers, of the peer and on the channel that are given. Both reach back as far as asked for
/// and follow where asked to; it is turned down exactly where the time cannot be read.
pub proof fn law_receiver_asks_as_flagged(
    from: Option<String>,
    channel: Option<String>,
    follow: bool,
    since: Option<String>,
    session: Option<String>,
    token: Option<String>,
    all: bool,
    around: Surroundings,
    r: Result<Plan, CliError>,
)
    requires
        commands::planned(
            Command::Recv { from, channel, follow, since, session, token, all },
            around,
            r,
        ),
    ensures
        r is Err == (since is Some && cli::duration_secs(since->0@) is None),
        r is Ok ==> r->Ok_0 is Ask && r->Ok_0->heading is None,
        r is Ok && commands::given(token, around.token) is Some ==> {
            let q = r->Ok_0->request;
            &&& q is AgentRecv
            &&& q->AgentRecv_token@ == commands::given(token, around.token)->0
            &&& text::opt_text(q->AgentRecv_session) == commands::given(session, around.session)
            &&& q->AgentRecv_follow == follow
            &&& q->consume == (!all && since is None)
            &&& cli::reaches_back(text::opt_text(since), around.now_ms, q->AgentRecv_since_ms)
            &&& r->Ok_0->awaits == (Await::BusMessages { follow })
        },
        r is Ok && commands::given(token, around.token) is None ==> {
            let q = r->Ok_0->request;
            &&& q is RecvSubscribe
            &&& from is None ==> q->RecvSubscribe_peer is None
            &&& from is Some ==> daemon::opt_selector(q->RecvSubscribe_peer) == Some(
                cli::selected(from->0@),
            )
            &&& text::opt_text(q->RecvSubscribe_channel) == text::opt_text(channel)
            &&& q->RecvSubscribe_follow == follow
            &&& cli::reaches_back(text::opt_text(since), around.now_ms, q->RecvSubscribe_since_ms)
            &&& r->Ok_0->awaits == (Await::Messages { follow })
        },
{
}

/// A chat follows the peer on the channel that are named, from now on.
pub proof fn law_chat_follows_from_now(
    peer: String,
    channel: String,
    around: Surroundings,
    r: Result<Plan, CliError>,
)
    requires
        commands::planned(Command::Chat { peer, channel }, around, r),
    ensures
        r is Ok && r->Ok_0 is Chat && r->Ok_0->follow is RecvSubscribe,
        ({
            let q = r->Ok_0->follow;
            &&& daemon::opt_selector(q->RecvSubscribe_peer) == Some(cli::selected(peer@))
            &&& text::opt_text(q->RecvSubscribe_channel) == Some(channel@)
            &&& q->RecvSubscribe_since_ms == Some(around.now_ms)
            &&& q->RecvSubscribe_follow
        }),
{
}

/// A grant asks for a token for the peer that is named, with as many capabilities as are named, for the
/// time that is given. It is turned down exactly where a capability is not known or the time cannot be
/// read.
pub proof fn law_grant_asks_as_flagged(
    peer: String,
    cap: Vec<String>,
    ttl: Option<String>,
    around: Surroundings,
    r: Result<Plan, CliError>,
)
    requires
        commands::planned(Command::TokenGrant { peer, cap, ttl }, around, r),
    ensures
        ({
            let known = forall|i: int| 0 <= i < cap@.len() ==> (#[trigger] cap@[i])@ == "msg"@;
            let timed = ttl is None || cli::duration_secs(ttl->0@) is Some;
            &&& r is Ok == (known && timed)
            &&& r is Ok ==> {
                let q = r->Ok_0->request;
                &&& r->Ok_0 is Ask && r->Ok_0->awaits == Await::Token
                &&& q is TokenGrant
                &&& q->TokenGrant_peer@ == cli::selected(peer@)
                &&& q->caps@.len() == cap@.len()
                &&& forall|i: int| 0 <= i < cap@.len() ==> #[trigger] q->caps@[i] == Cap::Msg
                &&& ttl is None ==> q->ttl_secs is None
                &&& ttl is Some ==> q->ttl_secs == cli::duration_secs(ttl->0@)
            }
            &&& !known ==> r->Err_0 is UnknownCap
        }),
{
    let named = text::texts(cap@);
    assert(named.len() == cap@.len());
    assert forall|i: int| 0 <= i < cap@.len() implies #[trigger] named[i] == cap@[i]@ by {}
    if forall|i: int| 0 <= i < cap@.len() ==> (#[trigger] cap@[i])@ == "msg"@ {
        assert forall|i: int| 0 <= i < named.len() implies #[trigger] named[i] == "msg"@ by {
            assert(cap@[i]@ == "msg"@);
        }
        assert(cli::caps_named(named) is Some);
    } else {
        let i = choose|i: int| 0 <= i < cap@.len() && (#[trigger] cap@[i])@ != "msg"@;
        assert(named[i] != "msg"@);
        assert(cli::caps_named(named) is None);
    }
}

/// A peer is added under the name that is given: by the address that its ticket holds, or by the
/// identifier that is spelled out.
pub proof fn law_peer_is_added_as_referred_to(
    id_or_ticket: String,
    name: String,
    around: Surroundings,
    r: Result<Plan, CliError>,
)
    requires
        commands::planned(Command::PeerAdd { id_or_ticket, name }, around, r),
    ensures
        match r {
            Ok(Plan::AddAddress { address, name: n }) => {
                &&& n@ == name@
                &&& ticket::ticket_text(address@) == text::trimmed(id_or_ticket@)
            },
            Ok(Plan::Ask { request, awaits, heading }) => {
                &&& awaits == Await::Ack
                &&& heading is None
                &&& request is PeerAdd
                &&& Some(request->nodeid@) == codec::hex_bytes(text::trimmed(id_or_ticket@))
                &&& request->PeerAdd_name@ == name@
                &&& request->addr_blob is None
            },
            Ok(_) => false,
            Err(_) => {
                let t = text::trimmed(id_or_ticket@);
                &&& t.len() != 64 || !codec::is_hex(t) || "wt1:"@.is_prefix_of(t)
                &&& "wt1:"@.is_prefix_of(t) ==> forall|a: Seq<u8>| t != #[trigger] ticket::ticket_text(a)
            },
        },
{
}

/// What a command names is what it asks for: the peer, the group, the session, the agent or the token,
/// under the bearer token that is given. Without one, what needs one is turned down.
pub proof fn law_command_asks_for_what_it_names(
    c: Command,
    around: Surroundings,
    r: Result<Plan, CliError>,
)
    requires
        commands::planned(c, around, r),
    ensures
        c is Init ==> r is Ok && r->Ok_0 is Init,
        c is Daemon ==> r is Ok && r->Ok_0 is Daemon,
        c is Nodeid ==> r is Ok && r->Ok_0 is Nodeid,
        c is Ticket ==> r is Ok && r->Ok_0->request is Ticket && r->Ok_0->awaits == Await::Ticket,
        c is Status ==> r is Ok && r->Ok_0->request is Status && r->Ok_0->awaits == Await::Status,
        c is PeerRm ==> r is Ok && r->Ok_0->awaits == Await::Ack && r->Ok_0->request is PeerRm
            && r->Ok_0->request->PeerRm_selector@ == cli::selected(c->PeerRm_peer@),
        c is PeerList ==> r is Ok && r->Ok_0->request == (IpcRequest::PeerList {
            filter: PeerFilter::All,
        }) && r->Ok_0->heading == Some(Listing::Peers) && r->Ok_0->awaits == Await::Listing(
            Listing::Peers,
        ),
        c is Ls && c->Ls_group is Some ==> r is Ok && r->Ok_0->request is SessionList
            && r->Ok_0->request->SessionList_group@ == c->Ls_group->0@ && r->Ok_0->heading == Some(
            Listing::Sessions,
        ) && r->Ok_0->awaits == Await::Listing(Listing::Sessions),
        c is Ls && c->Ls_group is None ==> {
            &&& r is Ok && r->Ok_0->request is PeerList && r->Ok_0->heading == Some(Listing::Peers)
            &&& r->Ok_0->awaits == Await::Listing(Listing::Peers)
            &&& c->connected ==> r->Ok_0->request->filter == PeerFilter::Connected
            &&& !c->connected && c->remote ==> r->Ok_0->request->filter == PeerFilter::Remote
            &&& !c->connected && !c->remote && c->local ==> r->Ok_0->request->filter
                == PeerFilter::Local
            &&& !c->connected && !c->remote && !c->local ==> r->Ok_0->request->filter
                == PeerFilter::All
        },
        c is Conn ==> r is Ok && r->Ok_0->request is ConnList && r->Ok_0->heading == Some(
            Listing::Conns,
        ) && r->Ok_0->awaits == Await::Listing(Listing::Conns),
        c is TokenList ==> r is Ok && r->Ok_0->request is TokenList && r->Ok_0->heading == Some(
            Listing::Tokens,
        ) && r->Ok_0->awaits == Await::Listing(Listing::Tokens),
        c is TokenRevoke && r is Ok ==> r->Ok_0->awaits == Await::Ack
            && r->Ok_0->request is TokenRevoke && Some(r->Ok_0->request->id@) == codec::hex_bytes(
            c->id@,
        ),
        c is TokenRevoke ==> r is Err == (codec::hex_bytes(c->id@) is None || codec::hex_bytes(
            c->id@,
        )->0.len() != 16),
        c is GroupNew ==> r is Ok && r->Ok_0->awaits == Await::Group && r->Ok_0->request is GroupNew
            && r->Ok_0->request->GroupNew_name@ == c->GroupNew_name@,
        c is GroupLs ==> r is Ok && r->Ok_0->request is GroupList && r->Ok_0->heading == Some(
            Listing::Groups,
        ) && r->Ok_0->awaits == Await::Listing(Listing::Groups),
        c is AgentLs ==> r is Ok && r->Ok_0->request is AgentList && text::opt_text(
            r->Ok_0->request->AgentList_group,
        ) == commands::given(c->AgentLs_group, around.group) && text::opt_text(
            r->Ok_0->request->AgentList_session,
        ) == text::opt_text(c->AgentLs_session) && r->Ok_0->heading == Some(Listing::Agents)
            && r->Ok_0->awaits == Await::Listing(Listing::Agents),
        c is AgentKill ==> match commands::given(c->AgentKill_token, around.token) {
            Some(t) => r is Ok && r->Ok_0->awaits == Await::Ack && r->Ok_0->request is AgentKill
                && r->Ok_0->request->AgentKill_token@ == t && r->Ok_0->request->agent@
                == c->AgentKill_name@,
            None => r is Err && r->Err_0 is NoToken,
        },
        c is Whoami ==> match commands::given(c->Whoami_token, around.token) {
            Some(t) => r is Ok && r->Ok_0->awaits == Await::WhoAmI && r->Ok_0->request is WhoAmI
                && r->Ok_0->request->WhoAmI_token@ == t,
            None => r is Err && r->Err_0 is NoToken,
        },
        c is SessionClose ==> match commands::given(c->SessionClose_token, around.token) {
            Some(t) => r is Ok && r->Ok_0->awaits == Await::Ack && r->Ok_0->request is SessionClose
                && r->Ok_0->request->SessionClose_token@ == t
                && r->Ok_0->request->SessionClose_session@ == c->SessionClose_name@
                && r->Ok_0->request->discard == c->discard,
            None => r is Err && r->Err_0 is NoToken,
        },
{
}

/// What is sent is what was planned, with the given body.
pub proof fn law_plan_is_sent(plan: SendPlan, payload: Vec<u8>)
    ensures
        ({
            let q = cli::request_sent(plan, payload);
            match plan {
                SendPlan::Agent { token, session, kind, body } => {
                    &&& q is AgentSend
                    &&& q->AgentSend_token@ == token@
                    &&& q->AgentSend_session@ == session@
                    &&& q->AgentSend_kind == kind
                    &&& q->AgentSend_payload@ == payload@
                },
                SendPlan::Peer { peer, channel, body } => {
                    &&& q is Send
                    &&& q->Send_peer@ == peer@
                    &&& q->Send_channel@ == channel@
                    &&& q->Send_payload@ == payload@
                },
            }
        }),
{
}

/// A failure is never told as success. What was not allowed is told as one thing, and apart from what
/// was asked wrongly, what is not there, what is not done yet and what went wrong inside.
pub proof fn law_failures_are_told_apart(code: IpcErrorCode)
    ensures
        cli::exit_code(code) != 0,
        code is Unauthorized || code is Expired || code is Revoked || code is PeerNotKnown
            ==> cli::exit_code(code) == 3,
        code is BadRequest ==> cli::exit_code(code) == 2,
        code is NotFound ==> cli::exit_code(code) == 4,
        code is Unimplemented ==> cli::exit_code(code) == 5,
        code is Internal ==> cli::exit_code(code) == 1,
{
}

/// What keeps a command from being carried out is said in words, with what was given.
pub proof fn law_command_errors_say_why(e: CliError)
    ensures
        ({
            let t = cli::error_text(e);
            &&& e is EmptyDuration ==> t == "empty duration"@
            &&& e is BadDurationNumber ==> t == "bad duration number"@
            &&& e is UnknownUnit ==> t == "unknown duration unit: "@ + e->UnknownUnit_0@
            &&& e is DurationTooLarge ==> t == "duration is too large"@
            &&& e is BothModes ==> t == "--worktree and --new are mutually exclusive"@
            &&& e is UnknownKind ==> t == "unknown message kind '"@ + e->UnknownKind_0@
                + "' (user|turn_input|turn_output|control|trace)"@
            &&& e is NoToken ==> t == "no wt token — pass --token or set WT_TOKEN"@
            &&& e is NoGroup ==> t == "--group or WT_GROUP required for spawn"@
            &&& e is NoPeer ==> t
                == "peer required (or use --session + WT_TOKEN for the agent bus)"@
            &&& e is TokenIdLength ==> t == "token id must be 16 bytes (32 hex chars)"@
            &&& e is UnknownCap ==> t == e->UnknownCap_0@
            &&& e is BadNodeId ==> t == "parse NodeId hex (or pass a wt1:… ticket): "@
                + node::node_error_text(e->BadNodeId_0)
            &&& e is BadTicket ==> t == "decode ticket: "@ + cli::ticket_error_text(e->BadTicket_0)
        }),
{
}

/// What is wrong with an identifier or a ticket is said in words.
pub proof fn law_reference_errors_say_why(e: NodeIdParseError, t: TicketError)
    ensures
        e is NotHex ==> node::node_error_text(e) == "node id is not valid hex"@,
        e matches NodeIdParseError::WrongLength(n) ==> node::node_error_text(e)
            == "node id must be 32 bytes (64 hex chars), got "@ + text::decimal_text(n as nat),
        t is WrongPrefix ==> cli::ticket_error_text(t) == "ticket missing `wt1:` prefix"@,
        t is Base32 ==> cli::ticket_error_text(t) == "ticket body is not valid base32"@,
        t is Decode ==> cli::ticket_error_text(t) == "ticket CBOR decode failed"@,
        t is Encode ==> cli::ticket_error_text(t) == "ticket CBOR encode failed"@,
{
}

/// What is wrong with hexadecimal or base32 is said in words, with the place where it is.
pub proof fn law_code_errors_say_where(h: HexFault, shown: Seq<char>, b: Base32Fault)
    ensures
        h matches HexFault::Character { c, index } ==> codec::hex_fault_text(h, shown)
            == "Invalid character "@ + shown + " at position "@ + text::decimal_text(index as nat),
        h is OddLength ==> codec::hex_fault_text(h, shown) == "Odd number of digits"@,
        b matches Base32Fault::Length(at) ==> codec::base32_fault_text(b) == "invalid length at "@
            + text::decimal_text(at as nat),
        b matches Base32Fault::Symbol(at) ==> codec::base32_fault_text(b) == "invalid symbol at "@
            + text::decimal_text(at as nat),
        b matches Base32Fault::Trailing(at) ==> codec::base32_fault_text(b)
            == "non-zero trailing bits at "@ + text::decimal_text(at as nat),
{
}

} // verus!
