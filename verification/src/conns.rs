//! The live links to peers, as they are listed.

use vstd::prelude::*;

use crate::codec;
use crate::ipc::ConnInfo;
use crate::ipc::ConnInfoV;
use crate::node::NodeId;
use crate::table;
use crate::table::Change;
use crate::table::Condition;
use crate::table::Record;
use crate::text;

verus! {

/// One live link to a peer.
#[derive(Debug)]
pub struct PeerLink {
    pub nodeid: NodeId,
    pub name: String,
    pub since_ms: u64,
    pub via_relay: bool,
    pub stream_labels: Vec<String>,
}

/// The model of a link.
#[verifier::ext_equal]
pub struct LinkV {
    pub nodeid: Seq<u8>,
    pub name: Seq<char>,
    pub since_ms: u64,
    pub via_relay: bool,
    pub stream_labels: Seq<Seq<char>>,
}

impl View for PeerLink {
    type V = LinkV;

    open spec fn view(&self) -> LinkV {
        LinkV {
            nodeid: self.nodeid@,
            name: self.name@,
            since_ms: self.since_ms,
            via_relay: self.via_relay,
            stream_labels: text::texts(self.stream_labels@),
        }
    }
}

impl Record for PeerLink {
    fn copy_row(&self) -> (r: Self) {
        PeerLink {
            nodeid: self.nodeid,
            name: self.name.clone(),
            since_ms: self.since_ms,
            via_relay: self.via_relay,
            stream_labels: text::texts_copy(&self.stream_labels),
        }
    }
}

/// The link to the given node.
pub open spec fn link_to(nodeid: Seq<u8>) -> spec_fn(LinkV) -> bool {
    |l: LinkV| l.nodeid == nodeid
}

/// A link with a stream on it. A stream that is there already is not listed twice.
pub open spec fn with_stream(label: Seq<char>) -> spec_fn(LinkV) -> LinkV {
    |l: LinkV|
        if l.stream_labels.contains(label) {
            l
        } else {
            LinkV { stream_labels: l.stream_labels.push(label), ..l }
        }
}

/// Every label but the given one.
pub open spec fn other_than(label: Seq<char>) -> spec_fn(Seq<char>) -> bool {
    |s: Seq<char>| s != label
}

/// A link without a stream.
pub open spec fn without_stream(label: Seq<char>) -> spec_fn(LinkV) -> LinkV {
    |l: LinkV|
        LinkV { stream_labels: l.stream_labels.filter(other_than(label)), ..l }
}

struct LinkTo {
    nodeid: NodeId,
}

impl Condition<PeerLink> for LinkTo {
    closed spec fn pred(&self) -> spec_fn(LinkV) -> bool {
        link_to(self.nodeid@)
    }

    fn test(&self, row: &PeerLink) -> (b: bool) {
        row.nodeid.same(&self.nodeid)
    }
}

struct WithStream {
    label: String,
}

fn has_text(v: &Vec<String>, s: &String) -> (r: bool)
    ensures
        r == text::texts(v@).contains(s@),
{
    let mut i: usize = 0;
    while i < v.len()
        invariant
            i <= v.len(),
            forall|j: int| 0 <= j < i ==> #[trigger] text::texts(v@)[j] != s@,
        decreases v.len() - i,
    {
        if v[i] == *s {
            assert(text::texts(v@)[i as int] == s@);
            return true;
        }
        i = i + 1;
    }
    false
}

impl Change<PeerLink> for WithStream {
    closed spec fn result(&self) -> spec_fn(LinkV) -> LinkV {
        with_stream(self.label@)
    }

    fn apply(&self, row: &mut PeerLink) {
        let ghost before = row.stream_labels@;
        if !has_text(&row.stream_labels, &self.label) {
            row.stream_labels.push(self.label.clone());
            assert(text::texts(row.stream_labels@) =~= text::texts(before).push(self.label@));
        }
    }
}

struct WithoutStream {
    label: String,
}

impl Change<PeerLink> for WithoutStream {
    closed spec fn result(&self) -> spec_fn(LinkV) -> LinkV {
        without_stream(self.label@)
    }

    fn apply(&self, row: &mut PeerLink) {
        let ghost all = text::texts(row.stream_labels@);
        let ghost keep = other_than(self.label@);
        let mut kept: Vec<String> = Vec::new();
        let mut i: usize = 0;
        assert(all.take(0).filter(keep) =~= Seq::empty()) by {
            reveal(Seq::filter);
        }
        while i < row.stream_labels.len()
            invariant
                i <= row.stream_labels.len(),
                all == text::texts(row.stream_labels@),
                row.stream_labels == old(row).stream_labels,
                row.nodeid == old(row).nodeid,
                row.name == old(row).name,
                row.since_ms == old(row).since_ms,
                row.via_relay == old(row).via_relay,
                keep == other_than(self.label@),
                text::texts(kept@) == all.take(i as int).filter(keep),
            decreases row.stream_labels.len() - i,
        {
            proof {
                table::lemma_filter_step(all, keep, i as int);
            }
            if row.stream_labels[i] != self.label {
                let ghost before = kept@;
                kept.push(row.stream_labels[i].clone());
                assert(text::texts(kept@) =~= text::texts(before).push(all[i as int]));
            }
            i = i + 1;
        }
        assert(all.take(i as int) =~= all);
        row.stream_labels = kept;
    }
}

/// The label of a message stream.
pub open spec fn stream_label(channel: Seq<char>) -> Seq<char> {
    "msg:"@ + channel
}

/// The label of a message stream.
fn label_for(channel: &str) -> (r: String)
    ensures
        r@ == stream_label(channel@),
{
    "msg:".to_owned().concat(channel)
}

/// The name that a link is listed under: the peer's, else the first six bytes of its identifier.
pub open spec fn link_name(name: Option<Seq<char>>, nodeid: Seq<u8>) -> Seq<char> {
    match name {
        Some(n) => n,
        None => codec::hex_text(nodeid.take(6)),
    }
}

/// The links once a stream was opened on a channel.
pub open spec fn opened(
    links: Seq<LinkV>,
    nodeid: Seq<u8>,
    name: Option<Seq<char>>,
    channel: Seq<char>,
    via_relay: bool,
    now_ms: u64,
) -> Seq<LinkV> {
    if table::any_of(links, link_to(nodeid)) {
        table::changed_where(links, link_to(nodeid), with_stream(stream_label(channel)))
    } else {
        links.push(
            LinkV {
                nodeid,
                name: link_name(name, nodeid),
                since_ms: now_ms,
                via_relay,
                stream_labels: seq![stream_label(channel)],
            },
        )
    }
}

/// The links once a stream was closed. The link stays.
pub open spec fn closed(links: Seq<LinkV>, nodeid: Seq<u8>, channel: Seq<char>) -> Seq<LinkV> {
    table::changed_where(links, link_to(nodeid), without_stream(stream_label(channel)))
}

/// The links once the link to a node is gone.
pub open spec fn unlinked(links: Seq<LinkV>, nodeid: Seq<u8>) -> Seq<LinkV> {
    table::without(links, link_to(nodeid))
}

/// A link as it is listed.
pub open spec fn listed(l: LinkV) -> ConnInfoV {
    ConnInfoV {
        peer_name: l.name,
        nodeid: l.nodeid,
        since_ms: l.since_ms,
        streams: l.stream_labels,
        rx_bytes: 0,
        tx_bytes: 0,
        rtt_us: None,
        via_relay: l.via_relay,
    }
}

/// The live links.
pub struct Conns {
    links: Vec<PeerLink>,
}

impl View for Conns {
    type V = Seq<LinkV>;

    closed spec fn view(&self) -> Seq<LinkV> {
        table::rows(self.links@)
    }
}

impl Conns {
    /// No links.
    pub fn new() -> (r: Self)
        ensures
            r@ == Seq::<LinkV>::empty(),
    {
        let r = Conns { links: Vec::new() };
        assert(r@ =~= Seq::<LinkV>::empty());
        r
    }

    /// Notes that a stream was opened on a channel.
    pub fn stream_opened(
        &mut self,
        nodeid: NodeId,
        name: Option<String>,
        channel: &str,
        via_relay: bool,
        now_ms: u64,
    )
        ensures
            final(self)@ == opened(
                old(self)@,
                nodeid@,
                text::opt_text(name),
                channel@,
                via_relay,
                now_ms,
            ),
    {
        let cond = LinkTo { nodeid };
        let label = label_for(channel);
        if table::any(&self.links, &cond) {
            table::update(&mut self.links, &cond, &WithStream { label });
        } else {
            let mut stream_labels: Vec<String> = Vec::new();
            stream_labels.push(label);
            assert(text::texts(stream_labels@) =~= seq![stream_label(channel@)]);
            let name = match name {
                Some(n) => n,
                None => nodeid.short_text(),
            };
            let link = PeerLink { nodeid, name, since_ms: now_ms, via_relay, stream_labels };
            let ghost before = self.links@;
            self.links.push(link);
            assert(table::rows(self.links@) =~= table::rows(before).push(link@));
        }
    }

    /// Notes that the stream on a channel is gone.
    pub fn stream_closed(&mut self, nodeid: NodeId, channel: &str)
        ensures
            final(self)@ == closed(old(self)@, nodeid@, channel@),
    {
        let change = WithoutStream { label: label_for(channel) };
        table::update(&mut self.links, &LinkTo { nodeid }, &change);
    }

    /// Notes that the link to a peer is gone.
    pub fn link_closed(&mut self, nodeid: NodeId)
        ensures
            final(self)@ == unlinked(old(self)@, nodeid@),
    {
        table::delete(&mut self.links, &LinkTo { nodeid });
    }

    /// How many streams there are on the link to a peer; `None` where there is no link.
    pub fn open_streams(&self, nodeid: &NodeId) -> (r: Option<usize>)
        ensures
            match table::first_of(self@, link_to(nodeid@)) {
                Some(l) => r matches Some(n) && n == l.stream_labels.len(),
                None => r is None,
            },
    {
        match table::find(&self.links, &LinkTo { nodeid: *nodeid }) {
            Some(l) => Some(l.stream_labels.len()),
            None => None,
        }
    }

    /// All links.
    pub fn list_conns(&self) -> (r: Vec<ConnInfo>)
        ensures
            table::rows(r@) == self@.map_values(|l: LinkV| listed(l)),
    {
        let mut out: Vec<ConnInfo> = Vec::new();
        let mut i: usize = 0;
        while i < self.links.len()
            invariant
                i <= self.links.len(),
                out@.len() == i,
                forall|j: int| 0 <= j < i ==> (#[trigger] out@[j])@ == listed(self.links@[j]@),
            decreases self.links.len() - i,
        {
            let l = &self.links[i];
            out.push(
                ConnInfo {
                    peer_name: l.name.clone(),
                    nodeid: l.nodeid,
                    since_ms: l.since_ms,
                    streams: text::texts_copy(&l.stream_labels),
                    rx_bytes: 0,
                    tx_bytes: 0,
                    rtt_us: None,
                    via_relay: l.via_relay,
                },
            );
            i = i + 1;
        }
        assert(table::rows(out@) =~= self@.map_values(|l: LinkV| listed(l)));
        out
    }
}

/// A stream that is opened again is listed once.
pub proof fn law_stream_listed_once(
    links: Seq<LinkV>,
    nodeid: Seq<u8>,
    name: Option<Seq<char>>,
    channel: Seq<char>,
    via_relay: bool,
    now_ms: u64,
    later_ms: u64,
)
    ensures
        ({
            let once = opened(links, nodeid, name, channel, via_relay, now_ms);
            opened(once, nodeid, name, channel, via_relay, later_ms) == once
        }),
{
    let once = opened(links, nodeid, name, channel, via_relay, now_ms);
    let label = stream_label(channel);
    let p = link_to(nodeid);
    if table::any_of(links, p) {
        let i = choose|i: int| 0 <= i < links.len() && p(#[trigger] links[i]);
        assert(p(once[i]));
    } else {
        assert(p(once[links.len() as int]));
    }
    assert forall|i: int| 0 <= i < once.len() && p(#[trigger] once[i]) implies (with_stream(label))(
        once[i],
    ) == once[i] by {
        if i < links.len() {
            if table::any_of(links, p) {
                assert(p(links[i]));
                if !links[i].stream_labels.contains(label) {
                    let n = links[i].stream_labels.len() as int;
                    assert(once[i].stream_labels[n] == label);
                }
            }
        } else {
            assert(once[i].stream_labels[0] == label);
        }
    }
    assert(opened(once, nodeid, name, channel, via_relay, later_ms) =~= once);
}

/// A stream that is opened is listed on the link to its node, and the streams that were listed stay
/// listed; every other link stays as it was. Where there is no link to the node one is added, since now,
/// under the name of the peer or the short form of its identifier, with that stream alone.
pub proof fn law_opened_stream_is_listed(
    links: Seq<LinkV>,
    nodeid: Seq<u8>,
    name: Option<Seq<char>>,
    channel: Seq<char>,
    via_relay: bool,
    now_ms: u64,
    i: int,
)
    ensures
        ({
            let t = opened(links, nodeid, name, channel, via_relay, now_ms);
            let linked = exists|k: int|
                0 <= k < links.len() && (#[trigger] links[k]).nodeid == nodeid;
            if linked {
                &&& t.len() == links.len()
                &&& 0 <= i < t.len() && links[i].nodeid != nodeid ==> t[i] == links[i]
                &&& 0 <= i < t.len() && links[i].nodeid == nodeid ==> {
                    &&& t[i] == (LinkV { stream_labels: t[i].stream_labels, ..links[i] })
                    &&& t[i].stream_labels.contains("msg:"@ + channel)
                    &&& links[i].stream_labels.is_prefix_of(t[i].stream_labels)
                    &&& t[i].stream_labels.len() <= links[i].stream_labels.len() + 1
                    &&& links[i].stream_labels.contains("msg:"@ + channel) ==> t[i] == links[i]
                }
            } else {
                let l = t.last();
                &&& t == links.push(l)
                &&& l.nodeid == nodeid && l.since_ms == now_ms && l.via_relay == via_relay
                &&& l.stream_labels == seq!["msg:"@ + channel]
                &&& name is Some ==> l.name == name->0
                &&& name is None ==> l.name == codec::hex_text(nodeid.take(6))
            }
        }),
{
    let p = link_to(nodeid);
    let t = opened(links, nodeid, name, channel, via_relay, now_ms);
    if table::any_of(links, p) {
        let k = choose|k: int| 0 <= k < links.len() && p(#[trigger] links[k]);
        assert(links[k].nodeid == nodeid);
        if 0 <= i < links.len() && links[i].nodeid == nodeid {
            let n = links[i].stream_labels.len() as int;
            assert(p(links[i]));
            if !links[i].stream_labels.contains(stream_label(channel)) {
                assert(t[i].stream_labels[n] == stream_label(channel));
            }
            assert(t[i].stream_labels.take(n) =~= links[i].stream_labels);
        }
    } else {
        assert forall|k: int| 0 <= k < links.len() implies (#[trigger] links[k]).nodeid
            != nodeid by {
            assert(!p(links[k]));
        }
    }
}

/// A stream that is closed is no longer listed, and no other stream goes with it; the links stay.
pub proof fn law_closed_stream_is_not_listed(
    links: Seq<LinkV>,
    nodeid: Seq<u8>,
    channel: Seq<char>,
    label: Seq<char>,
    i: int,
)
    requires
        0 <= i < links.len(),
    ensures
        ({
            let t = closed(links, nodeid, channel);
            &&& t.len() == links.len()
            &&& t[i] == (LinkV { stream_labels: t[i].stream_labels, ..links[i] })
            &&& links[i].nodeid != nodeid ==> t[i] == links[i]
            &&& links[i].nodeid == nodeid ==> (t[i].stream_labels.contains(label)
                <==> links[i].stream_labels.contains(label) && label != "msg:"@ + channel)
        }),
{
    let gone = stream_label(channel);
    let keep = other_than(gone);
    table::lemma_filter_contains(links[i].stream_labels, keep, label);
    assert((link_to(nodeid))(links[i]) == (links[i].nodeid == nodeid));
}

/// The end of a link takes the links to that node and no others.
pub proof fn law_ended_link_is_gone(links: Seq<LinkV>, nodeid: Seq<u8>, l: LinkV)
    ensures
        unlinked(links, nodeid).contains(l) <==> links.contains(l) && l.nodeid != nodeid,
{
    table::lemma_filter_contains(links, |x: LinkV| !(link_to(nodeid))(x), l);
}

} // verus!
