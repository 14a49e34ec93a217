//! Peers that are seen on the local network. Being seen does not make a peer known: pairing stays an
//! explicit act.

use vstd::prelude::*;

use crate::codec;
use crate::node::NodeId;
use crate::table;
use crate::table::Condition;
use crate::table::Record;
use crate::text;

verus! {

/// The service under which nodes announce themselves.
pub const SERVICE_TYPE: &'static str = "_wt._udp.local.";

/// A peer seen on the local network.
#[derive(Debug)]
pub struct LanPeer {
    pub nodeid: NodeId,
    pub addresses: Vec<String>,
    pub port: u16,
    pub instance: String,
    pub last_seen_ms: u64,
}

/// The model of a peer seen on the local network.
#[verifier::ext_equal]
pub struct LanV {
    pub nodeid: Seq<u8>,
    pub addresses: Seq<Seq<char>>,
    pub port: u16,
    pub instance: Seq<char>,
    pub last_seen_ms: u64,
}

impl View for LanPeer {
    type V = LanV;

    open spec fn view(&self) -> LanV {
        LanV {
            nodeid: self.nodeid@,
            addresses: text::texts(self.addresses@),
            port: self.port,
            instance: self.instance@,
            last_seen_ms: self.last_seen_ms,
        }
    }
}

impl Record for LanPeer {
    fn copy_row(&self) -> (r: Self) {
        LanPeer {
            nodeid: self.nodeid,
            addresses: text::texts_copy(&self.addresses),
            port: self.port,
            instance: self.instance.clone(),
            last_seen_ms: self.last_seen_ms,
        }
    }
}

/// The peer with the given identifier.
pub open spec fn lan_node(nodeid: Seq<u8>) -> spec_fn(LanV) -> bool {
    |l: LanV| l.nodeid == nodeid
}

/// The peer that announced itself under the given name.
pub open spec fn lan_instance(instance: Seq<char>) -> spec_fn(LanV) -> bool {
    |l: LanV| l.instance == instance
}

struct LanNode {
    nodeid: NodeId,
}

impl Condition<LanPeer> for LanNode {
    closed spec fn pred(&self) -> spec_fn(LanV) -> bool {
        lan_node(self.nodeid@)
    }

    fn test(&self, row: &LanPeer) -> (b: bool) {
        row.nodeid.same(&self.nodeid)
    }
}

struct LanInstance {
    instance: String,
}

impl Condition<LanPeer> for LanInstance {
    closed spec fn pred(&self) -> spec_fn(LanV) -> bool {
        lan_instance(self.instance@)
    }

    fn test(&self, row: &LanPeer) -> (b: bool) {
        row.instance == self.instance
    }
}

/// The name under which a node announces itself: `wt-` and the first sixteen digits of its
/// identifier.
pub open spec fn instance_of(nodeid: Seq<u8>) -> Seq<char> {
    "wt-"@ + codec::hex_text(nodeid).take(16)
}

/// The name under which a node announces itself.
pub fn instance_name(nodeid: &NodeId) -> (r: String)
    ensures
        r@ == instance_of(nodeid@),
{
    let hex = nodeid.to_string();
    assert(hex@.len() == 64);
    "wt-".to_owned().concat(hex.as_str().substring_char(0, 16))
}

/// The host name under which a node announces itself.
pub fn host_name(nodeid: &NodeId) -> (r: String)
    ensures
        r@ == instance_of(nodeid@) + ".local."@,
{
    instance_name(nodeid).concat(".local.")
}

/// The properties that a node announces.
pub fn properties(nodeid: &NodeId) -> (r: Vec<(String, String)>)
    ensures
        r@.len() == 2,
        r@[0].0@ == "nodeid"@ && r@[0].1@ == codec::hex_text(nodeid@),
        r@[1].0@ == "v"@ && r@[1].1@ == "0.2"@,
{
    let mut v: Vec<(String, String)> = Vec::new();
    v.push(("nodeid".to_owned(), nodeid.to_string()));
    v.push(("v".to_owned(), "0.2".to_owned()));
    v
}

/// The peers once an announcement was resolved: the newest of a node replaces the earlier. An
/// announcement without a proper identifier, or of the node itself, is passed over.
pub open spec fn resolved(
    peers: Seq<LanV>,
    own: Seq<u8>,
    nodeid: Option<Seq<char>>,
    addresses: Seq<Seq<char>>,
    port: u16,
    instance: Seq<char>,
    now_ms: u64,
) -> Seq<LanV> {
    match nodeid {
        Some(t) if codec::is_hex(t) && t.len() == 64 && codec::hex_bytes(t)->0 != own => {
            let n = codec::hex_bytes(t)->0;
            table::without(peers, lan_node(n)).push(
                LanV { nodeid: n, addresses, port, instance, last_seen_ms: now_ms },
            )
        },
        _ => peers,
    }
}

/// The peers once the announcement under a name has ended.
pub open spec fn withdrawn(peers: Seq<LanV>, instance: Seq<char>) -> Seq<LanV> {
    table::without(peers, lan_instance(instance))
}

/// The peers seen on the local network.
pub struct LanPeers {
    peers: Vec<LanPeer>,
}

impl View for LanPeers {
    type V = Seq<LanV>;

    closed spec fn view(&self) -> Seq<LanV> {
        table::rows(self.peers@)
    }
}

impl LanPeers {
    /// None seen yet.
    pub fn new() -> (r: Self)
        ensures
            r@ == Seq::<LanV>::empty(),
    {
        let r = LanPeers { peers: Vec::new() };
        assert(r@ =~= Seq::<LanV>::empty());
        r
    }

    /// Takes a resolved announcement. `nodeid` is the text that it gives as its identifier.
    pub fn resolve(
        &mut self,
        own: &NodeId,
        nodeid: Option<&str>,
        addresses: Vec<String>,
        port: u16,
        instance: String,
        now_ms: u64,
    )
        ensures
            final(self)@ == resolved(
                old(self)@,
                own@,
                text::opt_str(nodeid),
                text::texts(addresses@),
                port,
                instance@,
                now_ms,
            ),
    {
        let given = match nodeid {
            Some(t) => t,
            None => return,
        };
        let n = match NodeId::parse(given) {
            Ok(n) => n,
            Err(_) => return,
        };
        if n.same(own) {
            return;
        }
        table::delete(&mut self.peers, &LanNode { nodeid: n });
        let p = LanPeer { nodeid: n, addresses, port, instance, last_seen_ms: now_ms };
        let ghost before = self.peers@;
        self.peers.push(p);
        assert(table::rows(self.peers@) =~= table::rows(before).push(p@));
    }

    /// Takes the end of an announcement.
    pub fn remove(&mut self, instance: &str)
        ensures
            final(self)@ == withdrawn(old(self)@, instance@),
    {
        table::delete(&mut self.peers, &LanInstance { instance: instance.to_owned() });
    }

    /// All peers that are seen.
    pub fn list(&self) -> (r: &Vec<LanPeer>)
        ensures
            table::rows(r@) == self@,
    {
        &self.peers
    }
}

/// A node never lists itself, whatever is announced.
pub proof fn law_own_announcement_is_ignored(
    peers: Seq<LanV>,
    own: Seq<u8>,
    addresses: Seq<Seq<char>>,
    port: u16,
    instance: Seq<char>,
    now_ms: u64,
)
    ensures
        resolved(peers, own, Some(codec::hex_text(own)), addresses, port, instance, now_ms)
            == peers,
{
    codec::law_hex_roundtrip(own);
}

/// An announcement of another node under a proper identifier is listed as it was made, in place of what
/// that node announced before; every other node stays listed as it was. Any other announcement changes
/// nothing.
pub proof fn law_announcement_is_listed(
    peers: Seq<LanV>,
    own: Seq<u8>,
    nodeid: Option<Seq<char>>,
    addresses: Seq<Seq<char>>,
    port: u16,
    instance: Seq<char>,
    now_ms: u64,
    l: LanV,
)
    ensures
        ({
            let t = resolved(peers, own, nodeid, addresses, port, instance, now_ms);
            let id = codec::hex_bytes(nodeid->0);
            let proper = nodeid is Some && nodeid->0.len() == 64 && id is Some && id->0 != own;
            if proper {
                let new = t.last();
                &&& t.len() > 0
                &&& new.nodeid == id->0 && new.addresses == addresses && new.port == port
                &&& new.instance == instance && new.last_seen_ms == now_ms
                &&& t.contains(l) <==> l == new || (peers.contains(l) && l.nodeid != id->0)
            } else {
                t == peers
            }
        }),
{
    let t = resolved(peers, own, nodeid, addresses, port, instance, now_ms);
    let id = codec::hex_bytes(nodeid->0);
    if nodeid is Some && nodeid->0.len() == 64 && id is Some && id->0 != own {
        let rest = table::without(peers, lan_node(id->0));
        table::lemma_filter_contains(peers, |x: LanV| !(lan_node(id->0))(x), l);
        assert(t == rest.push(t.last()));
        if rest.contains(l) {
            let k = choose|k: int| 0 <= k < rest.len() && rest[k] == l;
            assert(t[k] == l);
        }
        assert(t[rest.len() as int] == t.last());
        if t.contains(l) {
            let k = choose|k: int| 0 <= k < t.len() && t[k] == l;
            if k < rest.len() {
                assert(rest[k] == l);
            }
        }
    }
}

/// What a node announces, another node lists it under.
pub proof fn law_announced_node_is_listed(
    peers: Seq<LanV>,
    own: Seq<u8>,
    id: Seq<u8>,
    addresses: Seq<Seq<char>>,
    port: u16,
    now_ms: u64,
)
    requires
        id.len() == 32,
        id != own,
    ensures
        resolved(
            peers,
            own,
            Some(codec::hex_text(id)),
            addresses,
            port,
            instance_of(id),
            now_ms,
        ).contains(
            LanV {
                nodeid: id,
                addresses,
                port,
                instance: "wt-"@ + codec::hex_text(id).take(16),
                last_seen_ms: now_ms,
            },
        ),
{
    codec::law_hex_roundtrip(id);
    let t = resolved(
        peers,
        own,
        Some(codec::hex_text(id)),
        addresses,
        port,
        instance_of(id),
        now_ms,
    );
    assert(t[t.len() - 1] == t.last());
}

/// The end of an announcement takes what was announced under that name and nothing else.
pub proof fn law_withdrawn_announcement_is_gone(peers: Seq<LanV>, instance: Seq<char>, l: LanV)
    ensures
        withdrawn(peers, instance).contains(l) <==> peers.contains(l) && l.instance != instance,
{
    table::lemma_filter_contains(peers, |x: LanV| !(lan_instance(instance))(x), l);
}

} // verus!
