//! How the daemon answers a request of any kind.

use vstd::prelude::*;

use crate::agents;
use crate::auth;
use crate::clock;
use crate::crypto;
use crate::daemon;
use crate::daemon::DaemonState;
use crate::daemon::DaemonV;
use crate::daemon::Moment;
use crate::daemon::MomentV;
use crate::daemon::Next;
use crate::daemon::NextV;
use crate::daemon::OrderV;
use crate::daemon::Reply;
use crate::daemon::ReplyV;
use crate::daemon::SpawnOrder;
use crate::ipc;
use crate::ipc::EventV;
use crate::ipc::IpcErrorCode;
use crate::ipc::IpcEvent;
use crate::ipc::IpcRequest;
use crate::text;

verus! {

/// The answer to a request at a given moment.
pub open spec fn handled(s: DaemonV, req: IpcRequest, at: MomentV) -> ReplyV {
    match req {
        IpcRequest::Status => daemon::answer(
            s,
            EventV::StatusInfo {
                nodeid: daemon::local_id(s),
                version: s.version,
                endpoint_bound: true,
            },
        ),
        IpcRequest::NodeId => daemon::answer(s, EventV::NodeIdValue(daemon::local_id(s))),
        IpcRequest::Ticket => daemon::not_yet(s, NextV::Ticket),
        IpcRequest::PeerAdd { nodeid, name, addr_blob } => daemon::peer_add_reply(
            s,
            nodeid@,
            name@,
            text::opt_bytes(addr_blob),
            at.now_ms,
        ),
        IpcRequest::PeerRm { selector } => daemon::peer_rm_reply(s, selector@),
        IpcRequest::PeerList { filter } => daemon::peer_list_reply(s, filter),
        IpcRequest::ConnList => daemon::conn_list_reply(s),
        IpcRequest::ConnClose { selector } => daemon::refuse(
            s,
            IpcErrorCode::Unimplemented,
            "conn close not implemented yet"@,
        ),
        IpcRequest::TokenGrant { peer, caps, ttl_secs } => daemon::token_grant_reply(
            s,
            peer@,
            caps@,
            ttl_secs,
            at,
        ),
        IpcRequest::TokenImport { raw } => daemon::not_yet(s, NextV::Decode(raw@)),
        IpcRequest::TokenList => daemon::token_list_reply(s),
        IpcRequest::TokenRevoke { id } => daemon::token_revoke_reply(s, id@),
        IpcRequest::Send { peer, channel, payload } => daemon::send_reply(
            s,
            peer@,
            channel@,
            payload@,
            at,
        ),
        IpcRequest::RecvSubscribe { peer, channel, since_ms, follow } => daemon::recv_reply(
            s,
            daemon::opt_selector(peer),
            text::opt_text(channel),
            since_ms,
            follow,
        ),
        IpcRequest::GroupNew { name } => agents::group_new_reply(s, name@, at),
        IpcRequest::GroupList => agents::group_list_reply(s),
        IpcRequest::SessionList { group } => agents::session_list_reply(s, group@),
        IpcRequest::AgentList { group, session } => agents::agent_list_reply(
            s,
            text::opt_text(group),
            text::opt_text(session),
        ),
        IpcRequest::Spawn {
            token,
            group,
            session,
            base_dir,
            fs_mode,
            branch,
            label,
            prompt,
            harness_argv,
            idle_timeout_secs,
            permission_mode,
            skip_permissions,
            trace,
            coordinator,
        } => agents::spawn_reply(
            s,
            token@,
            OrderV {
                group: group@,
                session: session@,
                prime: Seq::empty(),
                base_dir: base_dir@,
                fs_mode,
                prompt: prompt@,
                harness_argv: daemon::opt_texts(harness_argv),
                idle_timeout_secs,
                permission_mode: text::opt_text(permission_mode),
                skip_permissions,
                trace,
                coordinator,
            },
        ),
        IpcRequest::AgentSend { token, session, kind, payload } => agents::agent_send_reply(
            s,
            token@,
            session@,
            kind,
            payload@,
            at.now_ms,
        ),
        IpcRequest::AgentRecv { token, session, since_ms, follow, consume } =>
            agents::agent_recv_reply(
            s,
            token@,
            text::opt_text(session),
            since_ms,
            follow,
            consume,
        ),
        IpcRequest::AgentKill { token, agent } => agents::agent_kill_reply(
            s,
            token@,
            agent@,
            at.now_ms,
        ),
        IpcRequest::SessionClose { token, session, discard } => agents::session_close_reply(
            s,
            token@,
            session@,
            discard,
            at.now_ms,
        ),
        IpcRequest::WhoAmI { token } => agents::who_am_i_reply(s, token@),
    }
}

impl DaemonState {
    /// Answers a request at a given moment.
    pub fn handle(&mut self, req: &IpcRequest, at: &Moment) -> (r: Reply)
        ensures
            daemon::replied(final(self)@, r) == handled(old(self)@, *req, at@),
    {
        match req {
            IpcRequest::Status => self.status(),
            IpcRequest::NodeId => daemon::one(
                IpcEvent::NodeIdValue(self.identity.nodeid()),
                Next::Done,
            ),
            IpcRequest::Ticket => daemon::later(Next::Ticket),
            IpcRequest::PeerAdd { nodeid, name, addr_blob } => self.peer_add(
                *nodeid,
                name.as_str(),
                text::opt_bytes_copy(addr_blob),
                at,
            ),
            IpcRequest::PeerRm { selector } => self.peer_rm(selector),
            IpcRequest::PeerList { filter } => self.peer_list(filter),
            IpcRequest::ConnList => self.conn_list(),
            IpcRequest::ConnClose { selector: _ } => daemon::refusal(
                IpcErrorCode::Unimplemented,
                "conn close not implemented yet",
            ),
            IpcRequest::TokenGrant { peer, caps, ttl_secs } => self.token_grant(
                peer,
                caps,
                *ttl_secs,
                at,
            ),
            IpcRequest::TokenImport { raw } => daemon::later(
                Next::Decode(text::bytes_copy(raw.as_slice())),
            ),
            IpcRequest::TokenList => self.token_list(),
            IpcRequest::TokenRevoke { id } => self.token_revoke(id),
            IpcRequest::Send { peer, channel, payload } => self.send(
                peer,
                channel.as_str(),
                payload,
                at,
            ),
            IpcRequest::RecvSubscribe { peer, channel, since_ms, follow } => self.recv_subscribe(
                peer,
                channel,
                *since_ms,
                *follow,
            ),
            IpcRequest::GroupNew { name } => self.group_new(name.as_str(), at),
            IpcRequest::GroupList => self.group_list(),
            IpcRequest::SessionList { group } => self.session_list(group.as_str()),
            IpcRequest::AgentList { group, session } => self.agent_list(group, session),
            IpcRequest::Spawn {
                token,
                group,
                session,
                base_dir,
                fs_mode,
                branch: _,
                label: _,
                prompt,
                harness_argv,
                idle_timeout_secs,
                permission_mode,
                skip_permissions,
                trace,
                coordinator,
            } => {
                let prime = String::new();
                assert(prime@ =~= Seq::empty());
                let order = SpawnOrder {
                    group: group.clone(),
                    session: session.clone(),
                    prime,
                    base_dir: base_dir.clone(),
                    fs_mode: *fs_mode,
                    prompt: prompt.clone(),
                    harness_argv: match harness_argv {
                        Some(v) => Some(text::texts_copy(v)),
                        None => None,
                    },
                    idle_timeout_secs: *idle_timeout_secs,
                    permission_mode: text::opt_text_copy(permission_mode),
                    skip_permissions: *skip_permissions,
                    trace: *trace,
                    coordinator: *coordinator,
                };
                self.spawn(token.as_str(), order)
            },
            IpcRequest::AgentSend { token, session, kind, payload } => self.agent_send(
                token.as_str(),
                session.as_str(),
                *kind,
                payload,
                at,
            ),
            IpcRequest::AgentRecv { token, session, since_ms, follow, consume } => self.agent_recv(
                token.as_str(),
                session,
                *since_ms,
                *follow,
                *consume,
            ),
            IpcRequest::AgentKill { token, agent } => self.agent_kill(
                token.as_str(),
                agent.as_str(),
                at,
            ),
            IpcRequest::SessionClose { token, session, discard } => self.session_close(
                token.as_str(),
                session.as_str(),
                *discard,
                at,
            ),
            IpcRequest::WhoAmI { token } => self.who_am_i(token.as_str()),
        }
    }

    /// Answers a request at the present moment. What the clock and chance provide is left open.
    pub fn dispatch(&mut self, req: &IpcRequest) -> (r: Reply)
        ensures
            exists|at: MomentV|
                at.token.len() == 52 && at.id.len() == 16 && daemon::replied(final(self)@, r)
                    == #[trigger] handled(old(self)@, *req, at),
    {
        let at = now();
        let r = self.handle(req, &at);
        assert(daemon::replied(self@, r) == handled(old(self)@, *req, at@));
        r
    }
}

/// The present moment: the time, a fresh bearer token and a fresh token identifier.
pub fn now() -> (r: Moment)
    ensures
        r@.token.len() == 52,
        r@.id.len() == 16,
{
    Moment {
        now_ms: clock::unix_ms(),
        now_secs: clock::unix_secs(),
        token: auth::new_agent_token(),
        id: crypto::random_16(),
    }
}

/// Refuses what came on a connection and is no request.
pub fn undecodable(reason: &str) -> (r: IpcEvent)
    ensures
        r@ == ipc::failure(IpcErrorCode::BadRequest, "decode request: "@ + reason@),
{
    ipc::err(IpcErrorCode::BadRequest, "decode request: ".to_owned().concat(reason).as_str())
}

/// Whether the connection that a request came on serves nothing after it.
pub fn ends_connection(req: &IpcRequest) -> (r: bool)
    ensures
        r == (req is RecvSubscribe || req is AgentRecv),
{
    match req {
        IpcRequest::RecvSubscribe { .. } => true,
        IpcRequest::AgentRecv { .. } => true,
        _ => false,
    }
}

} // verus!
