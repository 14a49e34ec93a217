//! What happens on the links between nodes: who is let in, what is taken from a stream, how a stream
//! to a peer is opened, and how the outbox is drained.

use vstd::prelude::*;

use crate::auth;
use crate::auth::AuthError;
use crate::codec;
use crate::ipc;
use crate::ipc::EventV;
use crate::ipc::IpcErrorCode;
use crate::ipc::IpcEvent;
use crate::ipc::SelectorV;
use crate::node::NodeId;
use crate::queries;
use crate::rows::MessageRow;
use crate::rows::MessageV;
use crate::rows::PeerSelectorBytes;
use crate::rows::TokenV;
use crate::store;
use crate::store::Store;
use crate::store::StoreV;
use crate::store_laws;
use crate::table;
use crate::text;
use crate::token::Cap;
use crate::token::CapabilityToken;
use crate::token::ClaimsV;
use crate::token::SignedToken;
use crate::wire::MessageFrame;

verus! {

/// How many messages a delivery takes from the outbox at a time.
pub const DELIVERY_BATCH: usize = 64;

/// How long a delivery waits before it tries again, in milliseconds.
pub const DELIVERY_RETRY_MS: u64 = 5000;

// ----- letting in -----

/// The name of a peer, if it is known.
pub open spec fn name_of(s: StoreV, nodeid: Seq<u8>) -> Option<Seq<char>> {
    match store::peer_of(s, SelectorV::NodeId(nodeid)) {
        Some(p) => Some(p.name),
        None => None,
    }
}

/// What comes of a message stream that a peer opens: the peer's name, or why it is not accepted.
pub open spec fn admission(
    token: SignedToken,
    claims: Option<ClaimsV>,
    local: Seq<u8>,
    remote: Seq<u8>,
    s: StoreV,
    now_secs: u64,
) -> Result<Option<Seq<char>>, AuthError> {
    match auth::refusal(token, claims, local, remote, Cap::Msg, s, now_secs) {
        None => Ok(name_of(s, remote)),
        Some(e) => Err(e),
    }
}

/// The state after a message stream was decided on.
pub open spec fn after_admission(
    token: SignedToken,
    claims: Option<ClaimsV>,
    local: Seq<u8>,
    remote: Seq<u8>,
    s: StoreV,
    now_secs: u64,
    now_ms: u64,
) -> StoreV {
    if auth::refusal(token, claims, local, remote, Cap::Msg, s, now_secs) is None {
        store::peer_touched(s, remote, now_ms)
    } else {
        s
    }
}

/// Decides on a message stream that a peer opens, and notes that the peer was seen where it is
/// accepted. Returns the peer's name.
pub fn admit_stream(
    store: &mut Store,
    token: &SignedToken,
    claims: Option<CapabilityToken>,
    local: NodeId,
    remote: NodeId,
    now_secs: u64,
    now_ms: u64,
) -> (r: Result<Option<String>, AuthError>)
    ensures
        match admission(
            *token,
            auth::claims_view(claims),
            local@,
            remote@,
            old(store)@,
            now_secs,
        ) {
            Ok(name) => r matches Ok(n) && text::opt_text(n) == name,
            Err(e) => r == Err::<Option<String>, AuthError>(e),
        },
        final(store)@ == after_admission(
            *token,
            auth::claims_view(claims),
            local@,
            remote@,
            old(store)@,
            now_secs,
            now_ms,
        ),
{
    match auth::verify_token_at(token, claims, local, remote, Cap::Msg, store, now_secs) {
        Ok(_) => {},
        Err(e) => return Err(e),
    }
    let name = match store.peer_get(&PeerSelectorBytes::NodeId(remote)) {
        Some(p) => Some(p.name),
        None => None,
    };
    store.peer_touch_seen_at(&remote, now_ms);
    Ok(name)
}

/// What a peer is answered whose stream is not accepted.
pub open spec fn rejected(e: AuthError) -> EventV {
    ipc::failure(IpcErrorCode::Unauthorized, "auth: "@ + auth::auth_error_text(e))
}

/// What a peer is answered whose stream is not accepted.
pub fn rejection(e: &AuthError) -> (r: IpcEvent)
    ensures
        r@ == rejected(*e),
{
    let m = "auth: ".to_owned().concat(e.to_string().as_str());
    ipc::err(IpcErrorCode::Unauthorized, m.as_str())
}

// ----- taking in -----

/// What a message from a peer's stream is shown as.
pub open spec fn shown_as(
    remote: Seq<u8>,
    from_name: Option<Seq<char>>,
    channel: Seq<char>,
    frame: MessageFrame,
) -> EventV {
    EventV::RecvMsg {
        from: remote,
        from_name,
        channel,
        payload: frame.payload@,
        ts_ms: frame.ts_ms,
    }
}

/// What a message from a peer's stream is shown as to whoever follows the inbox. A message that could
/// not be kept is shown all the same.
pub fn shown(remote: NodeId, from_name: &Option<String>, channel: &str, frame: &MessageFrame) -> (r:
    IpcEvent)
    ensures
        r@ == shown_as(remote@, text::opt_text(*from_name), channel@, *frame),
{
    IpcEvent::RecvMsg {
        from: remote,
        from_name: text::opt_text_copy(from_name),
        channel: channel.to_owned(),
        payload: text::bytes_copy(frame.payload.as_slice()),
        ts_ms: frame.ts_ms,
    }
}

/// What is to be shown of a message from a peer's stream: nothing where it came before.
pub open spec fn taken(
    s: StoreV,
    remote: Seq<u8>,
    from_name: Option<Seq<char>>,
    channel: Seq<char>,
    frame: MessageFrame,
) -> Option<EventV> {
    if store::already_seen(s, remote, store::channel_key(channel), frame.seq) {
        None
    } else {
        Some(shown_as(remote, from_name, channel, frame))
    }
}

/// Takes a message from a peer's stream. Returns what is to be shown to whoever follows the inbox,
/// and `None` for a message that came before.
pub fn take_message(
    store: &mut Store,
    remote: NodeId,
    from_name: &Option<String>,
    channel: &str,
    frame: MessageFrame,
    now_ms: u64,
) -> (r: Option<IpcEvent>)
    ensures
        final(store)@ == store::recorded(
            old(store)@,
            remote@,
            channel@,
            frame.seq,
            frame.payload@,
            frame.ts_ms,
            now_ms,
        ),
        table::opt_row(r) == taken(
            old(store)@,
            remote@,
            text::opt_text(*from_name),
            channel@,
            frame,
        ),
{
    let new = store.inbox_record_at(
        remote,
        channel,
        frame.seq,
        frame.payload.as_slice(),
        frame.ts_ms,
        now_ms,
    );
    if new {
        Some(shown(remote, from_name, channel, &frame))
    } else {
        None
    }
}

/// Whose messages a reader of the inbox asks for.
#[derive(Debug, Clone, Copy)]
pub enum Senders {
    /// Anybody's.
    Any,
    /// Those of one node.
    Node(NodeId),
    /// Nobody's: the reader named a peer that is not there.
    Nobody,
}

/// The model of whose messages are asked for.
pub enum SendersV {
    Any,
    Node(Seq<u8>),
    Nobody,
}

impl View for Senders {
    type V = SendersV;

    open spec fn view(&self) -> SendersV {
        match *self {
            Senders::Any => SendersV::Any,
            Senders::Node(n) => SendersV::Node(n@),
            Senders::Nobody => SendersV::Nobody,
        }
    }
}

/// Whether the messages of a node are asked for.
pub open spec fn wants(w: SendersV, node: Seq<u8>) -> bool {
    match w {
        SendersV::Any => true,
        SendersV::Node(n) => n == node,
        SendersV::Nobody => false,
    }
}

/// Whether a follower of the inbox with the given filters is shown an event.
pub open spec fn follows(e: EventV, peer: SendersV, channel: Option<Seq<char>>) -> bool {
    match e {
        EventV::RecvMsg { from, channel: c, .. } => {
            &&& wants(peer, from)
            &&& channel matches Some(w) ==> w == c
        },
        _ => false,
    }
}

/// Whether a follower of the inbox with the given filters is shown an event.
pub fn passes(e: &IpcEvent, peer: &Senders, channel: &Option<String>) -> (r: bool)
    ensures
        r == follows(e@, peer@, text::opt_text(*channel)),
{
    match e {
        IpcEvent::RecvMsg { from, channel: c, .. } => {
            let of_peer = match peer {
                Senders::Any => true,
                Senders::Node(p) => p.same(from),
                Senders::Nobody => false,
            };
            let on_channel = match channel {
                Some(w) => *w == *c,
                None => true,
            };
            of_peer && on_channel
        },
        _ => false,
    }
}

// ----- opening -----

/// The token to present to a peer: of those it issued to the local node that carry the capability,
/// are not revoked and have not expired, the one that expires last.
pub open spec fn token_for(s: StoreV, target: Seq<u8>, local: Seq<u8>, now_secs: u64) -> Option<
    TokenV,
> {
    let found = table::stable_order(
        s.tokens.filter(queries::token_usable(target, local, Cap::Msg, now_secs)),
        queries::tokens_by_expiry(),
    );
    if found.len() == 0 {
        None
    } else {
        Some(found[0])
    }
}

/// What opening a stream to a peer takes.
pub struct Dial {
    /// The peer's name.
    pub name: String,
    /// The encoded signed token to present.
    pub token: Vec<u8>,
    /// The encoded address to dial, if one is known.
    pub addr_blob: Option<Vec<u8>>,
}

/// The model of what opening a stream takes.
#[verifier::ext_equal]
pub struct DialV {
    pub name: Seq<char>,
    pub token: Seq<u8>,
    pub addr_blob: Option<Seq<u8>>,
}

impl View for Dial {
    type V = DialV;

    open spec fn view(&self) -> DialV {
        DialV {
            name: self.name@,
            token: self.token@,
            addr_blob: text::opt_bytes(self.addr_blob),
        }
    }
}

/// What opening a stream to a peer takes, if it can be opened.
pub open spec fn dial_of(s: StoreV, target: Seq<u8>, local: Seq<u8>, now_secs: u64) -> Option<
    DialV,
> {
    match (store::peer_of(s, SelectorV::NodeId(target)), token_for(s, target, local, now_secs)) {
        (Some(p), Some(t)) => Some(DialV { name: p.name, token: t.raw, addr_blob: p.addr_blob }),
        _ => None,
    }
}

/// Why no stream to a peer can be opened.
pub open spec fn dial_refusal(s: StoreV, target: Seq<u8>) -> Seq<char> {
    if store::peer_of(s, SelectorV::NodeId(target)) is None {
        "peer not in local registry"@
    } else {
        "no valid msg-cap token from "@ + codec::hex_text(target)
            + " present locally — ask them to grant + import"@
    }
}

/// Prepares a stream to a peer. Refused where the peer is not known, or has granted nothing that is
/// still good.
pub fn prepare_dial(store: &Store, target: NodeId, local: NodeId, now_secs: u64) -> (r: Result<
    Dial,
    String,
>)
    ensures
        match r {
            Ok(d) => dial_of(store@, target@, local@, now_secs) == Some(d@),
            Err(m) => {
                &&& dial_of(store@, target@, local@, now_secs) is None
                &&& m@ == dial_refusal(store@, target@)
            },
        },
{
    let peer = match store.peer_get(&PeerSelectorBytes::NodeId(target)) {
        Some(p) => p,
        None => return Err("peer not in local registry".to_owned()),
    };
    match store.find_token_with_cap(target, local, Cap::Msg, now_secs) {
        Some(t) => Ok(Dial { name: peer.name, token: t.raw, addr_blob: peer.addr_blob }),
        None => Err(
            "no valid msg-cap token from ".to_owned().concat(target.to_string().as_str()).concat(
                " present locally — ask them to grant + import",
            ),
        ),
    }
}

/// The token that is presented to a peer was issued by it to the local node and is good; no other
/// such token expires later.
pub proof fn law_presented_token_is_the_best(
    s: StoreV,
    target: Seq<u8>,
    local: Seq<u8>,
    now_secs: u64,
    other: TokenV,
)
    ensures
        token_for(s, target, local, now_secs) matches Some(t) ==> {
            &&& s.tokens.contains(t)
            &&& (queries::token_usable(target, local, Cap::Msg, now_secs))(t)
            &&& s.tokens.contains(other) && (queries::token_usable(
                target,
                local,
                Cap::Msg,
                now_secs,
            ))(other) ==> other.exp <= t.exp
        },
        s.tokens.contains(other) && (queries::token_usable(target, local, Cap::Msg, now_secs))(
            other,
        ) ==> token_for(s, target, local, now_secs) is Some,
{
    let p = queries::token_usable(target, local, Cap::Msg, now_secs);
    let le = queries::tokens_by_expiry();
    let kept = s.tokens.filter(p);
    let found = table::stable_order(kept, le);
    table::law_stable_order(kept, le);
    table::lemma_filter_contains(s.tokens, p, other);
    table::lemma_stable_order_members(kept, le, other);
    if found.len() > 0 {
        let t = found[0];
        assert(found.contains(t));
        table::lemma_stable_order_members(kept, le, t);
        table::lemma_filter_contains(s.tokens, p, t);
        if found.contains(other) {
            let k = choose|k: int| 0 <= k < found.len() && found[k] == other;
            if k > 0 {
                assert(le(found[0], found[k]));
            }
        }
    }
}

// ----- delivering -----

/// The delivery of one peer's outbox. Every peer has its own, so that one that cannot be reached
/// holds up nobody else.
pub struct Delivery {
    peer: NodeId,
    /// The channels on which a stream is open.
    channels: Vec<String>,
    /// The messages taken from the outbox and not yet written.
    batch: Vec<MessageRow>,
}

/// The model of a delivery.
#[verifier::ext_equal]
pub struct DeliveryV {
    pub peer: Seq<u8>,
    pub channels: Seq<Seq<char>>,
    pub batch: Seq<MessageV>,
}

impl View for Delivery {
    type V = DeliveryV;

    closed spec fn view(&self) -> DeliveryV {
        DeliveryV {
            peer: self.peer@,
            channels: text::texts(self.channels@),
            batch: table::rows(self.batch@),
        }
    }
}

/// What is to be done next.
pub enum DeliveryStep {
    /// The outbox is drained: wait to be woken.
    Wait,
    /// Open a stream on the channel.
    Open(String),
    /// Write the message on the stream of the channel.
    Write { channel: String, frame: MessageFrame },
}

/// The model of what is to be done next.
pub enum DeliveryStepV {
    Wait,
    Open(Seq<char>),
    Write { channel: Seq<char>, seq: u64, ts_ms: u64, payload: Seq<u8> },
}

impl View for DeliveryStep {
    type V = DeliveryStepV;

    open spec fn view(&self) -> DeliveryStepV {
        match *self {
            DeliveryStep::Wait => DeliveryStepV::Wait,
            DeliveryStep::Open(c) => DeliveryStepV::Open(c@),
            DeliveryStep::Write { channel, frame } => DeliveryStepV::Write {
                channel: channel@,
                seq: frame.seq,
                ts_ms: frame.ts_ms,
                payload: frame.payload@,
            },
        }
    }
}

/// The messages that a delivery works on: those it holds, else the next from the outbox.
pub open spec fn working_batch(d: DeliveryV, s: StoreV) -> Seq<MessageV> {
    if d.batch.len() > 0 {
        d.batch
    } else {
        table::at_most(store::pending_for(s, d.peer), DELIVERY_BATCH as int)
    }
}

/// What a delivery does next.
pub open spec fn delivery_step(d: DeliveryV, s: StoreV) -> DeliveryStepV {
    let b = working_batch(d, s);
    if b.len() == 0 {
        DeliveryStepV::Wait
    } else if !d.channels.contains(b[0].channel) {
        DeliveryStepV::Open(b[0].channel)
    } else {
        DeliveryStepV::Write {
            channel: b[0].channel,
            seq: b[0].seq,
            ts_ms: b[0].enqueued_at_ms,
            payload: b[0].payload,
        }
    }
}

/// The state once a delivery has written its oldest message.
pub open spec fn after_write(d: DeliveryV, s: StoreV, now_ms: u64) -> StoreV {
    store::delivered(s, d.batch[0].sender, d.batch[0].channel_id, d.batch[0].seq, now_ms)
}

/// A delivery that has written its oldest message.
pub open spec fn wrote(d: DeliveryV) -> DeliveryV {
    DeliveryV { batch: d.batch.skip(1), ..d }
}

/// A delivery that starts over: no stream is open and nothing is taken from the outbox.
pub open spec fn restarted(d: DeliveryV) -> DeliveryV {
    DeliveryV { channels: Seq::empty(), batch: Seq::empty(), ..d }
}

impl Delivery {
    /// A delivery to a peer.
    pub fn new(peer: NodeId) -> (r: Self)
        ensures
            r@ == (DeliveryV { peer: peer@, channels: Seq::empty(), batch: Seq::empty() }),
    {
        let r = Delivery { peer, channels: Vec::new(), batch: Vec::new() };
        assert(r@ =~= DeliveryV { peer: peer@, channels: Seq::empty(), batch: Seq::empty() });
        r
    }

    /// What is to be done next: the oldest message is written, on a stream that is opened first
    /// where there is none for its channel.
    pub fn next(&mut self, store: &Store) -> (r: DeliveryStep)
        ensures
            final(self)@ == (DeliveryV { batch: working_batch(old(self)@, store@), ..old(self)@ }),
            r@ == delivery_step(old(self)@, store@),
    {
        if self.batch.len() == 0 {
            self.batch = store.outbox_pending_for_peer(&self.peer, DELIVERY_BATCH);
        }
        if self.batch.len() == 0 {
            return DeliveryStep::Wait;
        }
        let row = &self.batch[0];
        if !holds(&self.channels, &row.channel) {
            return DeliveryStep::Open(row.channel.clone());
        }
        DeliveryStep::Write {
            channel: row.channel.clone(),
            frame: MessageFrame {
                seq: row.seq,
                ts_ms: row.enqueued_at_ms,
                payload: text::bytes_copy(row.payload.as_slice()),
            },
        }
    }

    /// Notes that a stream was opened on a channel.
    pub fn opened(&mut self, channel: &str)
        ensures
            final(self)@ == (DeliveryV {
                channels: old(self)@.channels.push(channel@),
                ..old(self)@
            }),
    {
        self.channels.push(channel.to_owned());
        assert(text::texts(self.channels@) =~= text::texts(old(self).channels@).push(channel@));
    }

    /// Notes that the oldest message was written: it counts as delivered.
    pub fn written(&mut self, store: &mut Store, now_ms: u64)
        requires
            old(self)@.batch.len() > 0,
        ensures
            final(self)@ == wrote(old(self)@),
            final(store)@ == after_write(old(self)@, old(store)@, now_ms),
    {
        let row = self.batch.remove(0);
        store.outbox_mark_delivered_at(&row.sender, &row.channel_id, row.seq, now_ms);
        assert(table::rows(self.batch@) =~= table::rows(old(self).batch@).skip(1));
    }

    /// Starts over after a stream could not be opened or written. What was not delivered stays in
    /// the outbox.
    pub fn failed(&mut self)
        ensures
            final(self)@ == restarted(old(self)@),
    {
        self.channels = Vec::new();
        self.batch = Vec::new();
        assert(self@ =~= restarted(old(self)@));
    }
}

fn holds(v: &Vec<String>, s: &String) -> (r: bool)
    ensures
        r == text::texts(v@).contains(s@),
{
    let mut i: usize = 0;
    while i < v.len()
        invariant
            i <= v.len(),
            forall|j: int| 0 <= j < i ==> #[trigger] text::texts(v@)[j] != s@,
        decreases v.len() - i,
    {
        if v[i] == *s {
            assert(text::texts(v@)[i as int] == s@);
            return true;
        }
        i = i + 1;
    }
    false
}

/// Whether what a delivery holds are messages of its peer's outbox.
pub open spec fn delivery_wf(d: DeliveryV, s: StoreV) -> bool {
    forall|i: int|
        0 <= i < d.batch.len() ==> {
            &&& s.messages.contains(#[trigger] d.batch[i])
            &&& d.batch[i].direction is Out
            &&& d.batch[i].peer_nodeid == d.peer
        }
}

/// What a delivery takes from the outbox are messages for its peer, and it waits exactly when there
/// are none.
pub proof fn law_delivery_takes_own_messages(d: DeliveryV, s: StoreV)
    requires
        delivery_wf(d, s),
    ensures
        delivery_wf(DeliveryV { batch: working_batch(d, s), ..d }, s),
        d.batch.len() == 0 ==> (working_batch(d, s).len() == 0) == (store::pending_for(
            s,
            d.peer,
        ).len() == 0),
{
    let b = working_batch(d, s);
    let p = queries::message_pending_for(d.peer);
    let le = queries::messages_by_time();
    let all = store::pending_for(s, d.peer);
    if d.batch.len() == 0 {
        assert forall|i: int| 0 <= i < b.len() implies s.messages.contains(#[trigger] b[i])
            && b[i].direction is Out && b[i].peer_nodeid == d.peer by {
            assert(b[i] == all[i]);
            assert(all.contains(b[i]));
            table::lemma_stable_order_members(s.messages.filter(p), le, b[i]);
            table::lemma_filter_contains(s.messages, p, b[i]);
        }
    }
}

/// One peer's delivery does not touch another's outbox: whatever it writes, the messages that wait
/// for another peer are the same as before.
pub proof fn law_deliveries_are_independent(
    d: DeliveryV,
    s: StoreV,
    other: Seq<u8>,
    now_ms: u64,
)
    requires
        store_laws::wf(s),
        delivery_wf(d, s),
        d.batch.len() > 0,
        other != d.peer,
    ensures
        store::pending_for(
            store::delivered(
                s,
                d.batch[0].sender,
                d.batch[0].channel_id,
                d.batch[0].seq,
                now_ms,
            ),
            other,
        ) == store::pending_for(s, other),
{
    store_laws::law_delivered_is_not_pending(s, d.batch[0], now_ms, other);
}

/// A message that was not written stays in the outbox: a delivery that starts over finds it again.
pub proof fn law_undelivered_is_kept(d: DeliveryV, s: StoreV)
    ensures
        working_batch(restarted(d), s) == table::at_most(
            store::pending_for(s, d.peer),
            DELIVERY_BATCH as int,
        ),
{
}

} // verus!
