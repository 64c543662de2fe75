//! The decisions of the discovery phases: what to register, which peers the initial
//! sync and the watch stream add or remove, and what the sharding coordinator is told.
use vstd::prelude::*;
use crate::discovery::etcd::{peer_key_text, peers_prefix_text, EtcdOperations, PeerMetadata};
use crate::discovery::identity::{is_multiaddr_text, multiaddr_components, parse_peer_id, parsed_peer_id};
use crate::text::{strip_prefix, texts};

verus! {

/// One key/value pair read from etcd, as text: `key` and `value` are `None` when not
/// valid UTF-8; `addr` is the multiaddress text the value names, `None` when the value
/// names none.
pub struct PeerRecord {
    pub key: Option<String>,
    pub value: Option<String>,
    pub addr: Option<String>,
}

/// A record as plain values.
pub struct RecordView {
    pub key: Option<Seq<char>>,
    pub value: Option<Seq<char>>,
    pub addr: Option<Seq<char>>,
}

pub open spec fn opt_text(o: Option<String>) -> Option<Seq<char>> {
    match o {
        Some(s) => Some(s@),
        None => None,
    }
}

impl PeerRecord {
    pub open spec fn view_of(&self) -> RecordView {
        RecordView { key: opt_text(self.key), value: opt_text(self.value), addr: opt_text(self.addr) }
    }
}

/// Kind of a watch event.
#[derive(Clone, Copy, Debug, PartialEq, Eq, Structural)]
pub enum WatchEventKind {
    Put,
    Delete,
}

/// One event of a watch response.
pub struct WatchEvent {
    pub kind: WatchEventKind,
    pub kv: Option<PeerRecord>,
}

/// One message of the watch stream.
pub struct WatchResponse {
    pub canceled: bool,
    pub events: Vec<WatchEvent>,
}

/// Commands sent to the swarm.
pub enum DiscoveryCommand {
    /// Add or update a peer in the routing table
    AddPeer { peer_id: String, addr: String },
    /// Remove a peer from the routing table
    RemovePeer { peer_id: String },
    /// Initiate graceful shutdown
    Shutdown,
}

/// What processing a watch message hands on: a command for the swarm, or the complete
/// current peer list for the sharding coordinator.
pub enum DiscoveryOutput {
    Command(DiscoveryCommand),
    Topology(Vec<String>),
}

/// Why a watch message could not be processed.
#[derive(Clone, Copy, Debug, PartialEq, Eq, Structural)]
pub enum WatchFailure {
    /// The watch stream was canceled
    Canceled,
    /// A key or value was not valid UTF-8
    Unreadable,
}

/// The peer a record's key names, when the key lies under `prefix` and the rest of it
/// reads as a peer id.
pub open spec fn record_peer(prefix: Seq<char>, r: RecordView) -> Option<Seq<char>> {
    match r.key {
        Some(k) => if prefix.is_prefix_of(k) {
            parsed_peer_id(k.skip(prefix.len() as int))
        } else {
            None
        },
        None => None,
    }
}

/// The (peer, address) a record announces: a peer other than `local`, with an address
/// that reads as a multiaddress.
pub open spec fn record_addition(prefix: Seq<char>, local: Seq<char>, r: RecordView) -> Option<(Seq<char>, Seq<char>)> {
    match record_peer(prefix, r) {
        Some(p) => if p == local {
            None
        } else {
            match r.addr {
                Some(a) => if is_multiaddr_text(a) { Some((p, a)) } else { None },
                None => None,
            }
        },
        None => None,
    }
}

/// The peers announced by `records`, in order, and whether reading stopped at a record
/// that was not text.
pub open spec fn scan_additions(prefix: Seq<char>, local: Seq<char>, records: Seq<RecordView>) -> (Seq<(Seq<char>, Seq<char>)>, bool)
    decreases records.len(),
{
    if records.len() == 0 {
        (Seq::empty(), false)
    } else {
        let prev = scan_additions(prefix, local, records.drop_last());
        let r = records.last();
        if prev.1 {
            prev
        } else if r.key is None || r.value is None {
            (prev.0, true)
        } else {
            match record_addition(prefix, local, r) {
                Some(pa) => (prev.0.push(pa), false),
                None => prev,
            }
        }
    }
}

/// The known peers after learning of `p`.
pub open spec fn add_known(known: Seq<Seq<char>>, p: Seq<char>) -> Seq<Seq<char>> {
    if known.contains(p) {
        known
    } else {
        known.push(p)
    }
}

/// What a watch message hands on, as plain values.
pub enum OutputView {
    Add(Seq<char>, Seq<char>),
    Remove(Seq<char>),
    Topology(Seq<Seq<char>>),
}

pub struct EventView {
    pub kind: WatchEventKind,
    pub kv: Option<RecordView>,
}

impl WatchEvent {
    pub open spec fn view_of(&self) -> EventView {
        EventView {
            kind: self.kind,
            kv: match self.kv {
                Some(r) => Some(r.view_of()),
                None => None,
            },
        }
    }
}

pub open spec fn topology_output(sharding: bool, known: Seq<Seq<char>>) -> Seq<OutputView> {
    if sharding {
        seq![OutputView::Topology(known)]
    } else {
        Seq::empty()
    }
}

/// Outputs, known peers and failure after one more event.
pub open spec fn event_step(
    prefix: Seq<char>,
    local: Seq<char>,
    sharding: bool,
    st: (Seq<OutputView>, Seq<Seq<char>>, bool),
    e: EventView,
) -> (Seq<OutputView>, Seq<Seq<char>>, bool) {
    if st.2 {
        st
    } else {
        match e.kv {
            None => st,
            Some(r) => match e.kind {
                WatchEventKind::Put => if r.key is None || r.value is None {
                    (st.0, st.1, true)
                } else {
                    match record_addition(prefix, local, r) {
                        Some(pa) => {
                            let k = add_known(st.1, pa.0);
                            (st.0.push(OutputView::Add(pa.0, pa.1)) + topology_output(sharding, k), k, false)
                        },
                        None => st,
                    }
                },
                WatchEventKind::Delete => if r.key is None {
                    (st.0, st.1, true)
                } else {
                    match record_peer(prefix, r) {
                        Some(p) => {
                            let k = st.1.remove_value(p);
                            (st.0.push(OutputView::Remove(p)) + topology_output(sharding, k), k, false)
                        },
                        None => st,
                    }
                },
            },
        }
    }
}

/// Outputs, known peers and failure after the events of one watch message.
pub open spec fn scan_events(
    prefix: Seq<char>,
    local: Seq<char>,
    sharding: bool,
    known: Seq<Seq<char>>,
    events: Seq<EventView>,
) -> (Seq<OutputView>, Seq<Seq<char>>, bool)
    decreases events.len(),
{
    if events.len() == 0 {
        (Seq::empty(), known, false)
    } else {
        event_step(prefix, local, sharding, scan_events(prefix, local, sharding, known, events.drop_last()), events.last())
    }
}

/// An output and its plain-value description agree.
pub open spec fn output_matches(o: DiscoveryOutput, v: OutputView) -> bool {
    match (o, v) {
        (DiscoveryOutput::Command(DiscoveryCommand::AddPeer { peer_id, addr }), OutputView::Add(p, a)) => peer_id@ == p
            && addr@ == a,
        (DiscoveryOutput::Command(DiscoveryCommand::RemovePeer { peer_id }), OutputView::Remove(p)) => peer_id@ == p,
        (DiscoveryOutput::Topology(peers), OutputView::Topology(k)) => texts(peers@) == k,
        _ => false,
    }
}

pub open spec fn outputs_match(os: Seq<DiscoveryOutput>, vs: Seq<OutputView>) -> bool {
    os.len() == vs.len() && forall|i: int| 0 <= i < os.len() ==> #[trigger] output_matches(os[i], vs[i])
}

/// Outcome of the convergence phase.
pub struct ConvergeOutcome {
    /// Peers announced, in order: each gets an `AddPeer` command
    pub added: Vec<(String, String)>,
    /// Reading stopped at a record that was not text
    pub failed: bool,
    /// The peer list for the sharding coordinator, when it is notified
    pub topology: Option<Vec<String>>,
}

pub open spec fn pair_texts(v: Seq<(String, String)>) -> Seq<(Seq<char>, Seq<char>)> {
    v.map_values(|p: (String, String)| (p.0@, p.1@))
}

/// Known peers after adding each announced peer in turn.
pub open spec fn add_all_known(known: Seq<Seq<char>>, added: Seq<(Seq<char>, Seq<char>)>) -> Seq<Seq<char>>
    decreases added.len(),
{
    if added.len() == 0 {
        known
    } else {
        add_known(add_all_known(known, added.drop_last()), added.last().0)
    }
}

/// The peer a record's key names, under `prefix`.
pub(crate) fn record_peer_under(prefix: &String, r: &PeerRecord) -> (p: Option<String>)
    ensures
        opt_text(p) == record_peer(prefix@, r.view_of()),
{
    match &r.key {
        Some(k) => match strip_prefix(k.as_str(), prefix.as_str()) {
            Some(rest) => parse_peer_id(rest.as_str()),
            None => None,
        },
        None => None,
    }
}

/// The (peer, address) a record under `prefix` announces to the node `local`.
pub(crate) fn record_addition_for(prefix: &String, local: &String, r: &PeerRecord) -> (pa: Option<(String, String)>)
    ensures
        match pa {
            Some(x) => record_addition(prefix@, local@, r.view_of()) == Some((x.0@, x.1@)),
            None => record_addition(prefix@, local@, r.view_of()) is None,
        },
{
    match record_peer_under(prefix, r) {
        Some(p) => {
            if p == *local {
                return None;
            }
            match &r.addr {
                Some(a) => if multiaddr_components(a.as_str()).is_some() {
                    Some((p, a.clone()))
                } else {
                    None
                },
                None => None,
            }
        },
        None => None,
    }
}

/// The peers `records` announce to the node `local`, in order, and whether reading
/// stopped at a record that was not text (the peers before it are kept).
pub fn announced_peers(prefix: &String, local: &String, records: &Vec<PeerRecord>) -> (r: (Vec<(String, String)>, bool))
    ensures
        ({
            let scan = scan_additions(prefix@, local@, records@.map_values(|x: PeerRecord| x.view_of()));
            pair_texts(r.0@) == scan.0 && r.1 == scan.1
        }),
{
    let ghost rv = records@.map_values(|x: PeerRecord| x.view_of());
    let mut added: Vec<(String, String)> = Vec::new();
    let mut i: usize = 0;
    while i < records.len()
        invariant
            i <= records.len(),
            rv == records@.map_values(|x: PeerRecord| x.view_of()),
            !scan_additions(prefix@, local@, rv.take(i as int)).1,
            pair_texts(added@) == scan_additions(prefix@, local@, rv.take(i as int)).0,
        decreases records.len() - i,
    {
        let r = &records[i];
        assert(rv.take(i + 1).drop_last() =~= rv.take(i as int));
        assert(rv.take(i + 1).last() == r.view_of());
        if r.key.is_none() || r.value.is_none() {
            proof {
                lemma_scan_additions_failed(prefix@, local@, rv, i + 1);
            }
            return (added, true);
        }
        match record_addition_for(prefix, local, r) {
            Some(pa) => {
                let ghost before = added@;
                added.push(pa);
                assert(pair_texts(added@) =~= pair_texts(before).push((pa.0@, pa.1@)));
            },
            None => {},
        }
        i = i + 1;
    }
    assert(rv.take(records.len() as int) =~= rv);
    (added, false)
}

/// The discovery protocol's own state: which cluster, who we are, and which peers are
/// known (kept for the sharding coordinator).
pub struct DiscoveryPhases {
    etcd_ops: EtcdOperations,
    local_peer_id: String,
    local_addr: String,
    /// Known peers, each once
    known_peers: Vec<String>,
    /// Whether topology changes are handed to the sharding coordinator
    notifies_sharding: bool,
}

impl DiscoveryPhases {
    /// The known peers.
    pub closed spec fn known(&self) -> Seq<Seq<char>> {
        texts(self.known_peers@)
    }

    /// Whether topology changes are handed on.
    pub closed spec fn notifies(&self) -> bool {
        self.notifies_sharding
    }

    /// The cluster id.
    pub closed spec fn cluster(&self) -> Seq<char> {
        self.etcd_ops.cluster_id@
    }

    /// This node's peer id text.
    pub closed spec fn local(&self) -> Seq<char> {
        self.local_peer_id@
    }

    /// This node's multiaddress text.
    pub closed spec fn addr(&self) -> Seq<char> {
        self.local_addr@
    }

    /// The etcd naming of this cluster.
    pub fn etcd_ops(&self) -> (r: &EtcdOperations)
        ensures
            r.cluster_id@ == self.cluster(),
    {
        &self.etcd_ops
    }

    /// This node's peer id text.
    pub fn local_peer_id(&self) -> (r: &String)
        ensures
            r@ == self.local(),
    {
        &self.local_peer_id
    }

    /// This node's multiaddress text.
    pub fn local_addr(&self) -> (r: &String)
        ensures
            r@ == self.addr(),
    {
        &self.local_addr
    }

    /// Starts with the local peer as the only known peer.
    pub fn new(etcd_ops: EtcdOperations, local_peer_id: String, local_addr: String, notifies_sharding: bool) -> (r: Self)
        ensures
            r.known() == seq![local_peer_id@],
            r.notifies() == notifies_sharding,
            r.cluster() == etcd_ops.cluster_id@,
            r.local() == local_peer_id@,
            r.addr() == local_addr@,
    {
        let mut known_peers: Vec<String> = Vec::new();
        let local = local_peer_id.clone();
        known_peers.push(local);
        assert(texts(known_peers@) =~= seq![local_peer_id@]);
        DiscoveryPhases { etcd_ops, local_peer_id, local_addr, known_peers, notifies_sharding }
    }

    /// The peer list handed to the sharding coordinator.
    fn known_list(&self) -> (r: Vec<String>)
        ensures
            texts(r@) == self.known(),
    {
        let mut out: Vec<String> = Vec::new();
        let mut i: usize = 0;
        while i < self.known_peers.len()
            invariant
                i <= self.known_peers.len(),
                texts(out@) == texts(self.known_peers@).take(i as int),
            decreases self.known_peers.len() - i,
        {
            let ghost before = out@;
            out.push(self.known_peers[i].clone());
            assert(texts(out@) =~= texts(before).push(self.known_peers@[i as int]@));
            i = i + 1;
            assert(texts(out@) =~= texts(self.known_peers@).take(i as int));
        }
        assert(texts(self.known_peers@).take(i as int) =~= texts(self.known_peers@));
        out
    }

    /// The registration record of this node: its key and the metadata put there.
    pub fn registration(&self) -> (r: (String, PeerMetadata))
        ensures
            r.0@ == peer_key_text(self.cluster(), self.local()),
            r.1.multiaddr@ == self.addr(),
            r.1.meta@.len() == 0,
            r.1.shard == 0,
    {
        let key = self.etcd_ops.peer_key(&self.local_peer_id);
        (key, PeerMetadata { multiaddr: self.local_addr.clone(), meta: Vec::new(), shard: 0 })
    }

    /// The peer a record's key names.
    fn record_peer_of(prefix: &String, r: &PeerRecord) -> (p: Option<String>)
        ensures
            opt_text(p) == record_peer(prefix@, r.view_of()),
    {
        record_peer_under(prefix, r)
    }

    /// The (peer, address) a record announces.
    fn record_addition_of(&self, prefix: &String, r: &PeerRecord) -> (pa: Option<(String, String)>)
        ensures
            match pa {
                Some(x) => record_addition(prefix@, self.local(), r.view_of()) == Some((x.0@, x.1@)),
                None => record_addition(prefix@, self.local(), r.view_of()) is None,
            },
    {
        record_addition_for(prefix, &self.local_peer_id, r)
    }

    /// Learns of `p`.
    fn learn(&mut self, p: &String)
        ensures
            final(self).known() == add_known(old(self).known(), p@),
            final(self).notifies() == old(self).notifies(),
            final(self).cluster() == old(self).cluster(),
            final(self).local() == old(self).local(),
            final(self).addr() == old(self).addr(),
    {
        let mut i: usize = 0;
        while i < self.known_peers.len()
            invariant
                i <= self.known_peers.len(),
                forall|k: int| 0 <= k < i ==> texts(self.known_peers@)[k] != p@,
            decreases self.known_peers.len() - i,
        {
            if self.known_peers[i] == *p {
                assert(texts(self.known_peers@)[i as int] == p@);
                assert(self.known().contains(p@));
                return;
            }
            i = i + 1;
        }
        assert(!self.known().contains(p@));
        self.known_peers.push(p.clone());
        assert(texts(self.known_peers@) =~= texts(old(self).known_peers@).push(p@));
    }

    /// Forgets `p`, known peers being held each once.
    fn forget(&mut self, p: &String)
        requires
            old(self).known().no_duplicates(),
        ensures
            final(self).known() == old(self).known().remove_value(p@),
            final(self).notifies() == old(self).notifies(),
            final(self).cluster() == old(self).cluster(),
            final(self).local() == old(self).local(),
            final(self).addr() == old(self).addr(),
    {
        let ghost k0 = self.known();
        proof {
            k0.index_of_first_ensures(p@);
        }
        match self.position_of(p) {
            Some(i) => {
                assert(k0.index_of_first(p@) == Some(i as int));
                self.known_peers.remove(i);
                assert(texts(self.known_peers@) =~= k0.remove(i as int));
            },
            None => {},
        }
    }

    /// Where `p` is among the known peers.
    fn position_of(&self, p: &String) -> (r: Option<usize>)
        ensures
            match r {
                Some(i) => i < self.known_peers.len() && self.known()[i as int] == p@ && forall|k: int|
                    0 <= k < i ==> self.known()[k] != p@,
                None => !self.known().contains(p@),
            },
    {
        let mut i: usize = 0;
        while i < self.known_peers.len()
            invariant
                i <= self.known_peers.len(),
                forall|k: int| 0 <= k < i ==> texts(self.known_peers@)[k] != p@,
            decreases self.known_peers.len() - i,
        {
            if self.known_peers[i] == *p {
                return Some(i);
            }
            i = i + 1;
        }
        None
    }

    /// Phase 3 decisions: the peers the initial listing announces (each to be added to
    /// the routing table and remembered), then, unless reading failed, the peer list for
    /// the sharding coordinator.
    pub fn converge(&mut self, records: Vec<PeerRecord>) -> (r: ConvergeOutcome)
        requires
            old(self).known().no_duplicates(),
        ensures
            ({
                let scan = scan_additions(
                    peers_prefix_text(old(self).cluster()),
                    old(self).local(),
                    records@.map_values(|x: PeerRecord| x.view_of()),
                );
                &&& pair_texts(r.added@) == scan.0
                &&& r.failed == scan.1
            }),
            final(self).known() == add_all_known(old(self).known(), pair_texts(r.added@)),
            final(self).known().no_duplicates(),
            match r.topology {
                Some(peers) => !r.failed && old(self).notifies() && texts(peers@) == final(self).known(),
                None => r.failed || !old(self).notifies(),
            },
            final(self).notifies() == old(self).notifies(),
            final(self).cluster() == old(self).cluster(),
            final(self).local() == old(self).local(),
            final(self).addr() == old(self).addr(),
    {
        let prefix = self.etcd_ops.peers_prefix();
        let ghost rv = records@.map_values(|x: PeerRecord| x.view_of());
        let ghost pfx = prefix@;
        let ghost local = self.local_peer_id@;
        let ghost k0 = self.known();
        let mut added: Vec<(String, String)> = Vec::new();
        let mut i: usize = 0;
        while i < records.len()
            invariant
                i <= records.len(),
                rv == records@.map_values(|x: PeerRecord| x.view_of()),
                pfx == prefix@,
                local == self.local(),
                pfx == peers_prefix_text(self.cluster()),
                !scan_additions(pfx, local, rv.take(i as int)).1,
                pair_texts(added@) == scan_additions(pfx, local, rv.take(i as int)).0,
                k0 == old(self).known(),
                self.known() == add_all_known(k0, pair_texts(added@)),
                self.known().no_duplicates(),
                self.notifies() == old(self).notifies(),
                self.cluster() == old(self).cluster(),
                self.local() == old(self).local(),
                self.addr() == old(self).addr(),
            decreases records.len() - i,
        {
            let r = &records[i];
            assert(rv.take(i + 1).drop_last() =~= rv.take(i as int));
            assert(rv.take(i + 1).last() == r.view_of());
            if r.key.is_none() || r.value.is_none() {
                proof {
                    let j = i as int;
                    assert(scan_additions(pfx, local, rv.take(j + 1)).1);
                    lemma_scan_additions_failed(pfx, local, rv, j + 1);
                }
                return ConvergeOutcome { added, failed: true, topology: None };
            }
            match self.record_addition_of(&prefix, r) {
                Some(pa) => {
                    let ghost before = added@;
                    self.learn(&pa.0);
                    added.push(pa);
                    assert(pair_texts(added@) =~= pair_texts(before).push((pa.0@, pa.1@)));
                    assert(pair_texts(added@).drop_last() =~= pair_texts(before));
                },
                None => {},
            }
            i = i + 1;
        }
        assert(rv.take(records.len() as int) =~= rv);
        if self.notifies_sharding {
            let peers = self.known_list();
            ConvergeOutcome { added, failed: false, topology: Some(peers) }
        } else {
            ConvergeOutcome { added, failed: false, topology: None }
        }
    }
}

impl DiscoveryPhases {
    /// Phase 4 decisions on one message of the watch stream: each event for another
    /// peer's key becomes an `AddPeer` (a put of a readable announcement from another
    /// peer) or a `RemovePeer` (a delete), the known peers follow, and after each change
    /// the sharding coordinator is handed the complete peer list. A canceled stream, or a
    /// key or value that is not text, fails the message.
    pub fn process_watch_response(&mut self, resp: WatchResponse) -> (r: (Vec<DiscoveryOutput>, Result<(), WatchFailure>))
        requires
            old(self).known().no_duplicates(),
        ensures
            resp.canceled ==> r.0.len() == 0 && r.1 == Err::<(), WatchFailure>(WatchFailure::Canceled) && final(self).known()
                == old(self).known(),
            !resp.canceled ==> ({
                let sc = scan_events(
                    peers_prefix_text(old(self).cluster()),
                    old(self).local(),
                    old(self).notifies(),
                    old(self).known(),
                    resp.events@.map_values(|e: WatchEvent| e.view_of()),
                );
                &&& outputs_match(r.0@, sc.0)
                &&& final(self).known() == sc.1
                &&& (sc.2 ==> r.1 == Err::<(), WatchFailure>(WatchFailure::Unreadable))
                &&& (!sc.2 ==> r.1 is Ok)
            }),
            final(self).known().no_duplicates(),
            final(self).notifies() == old(self).notifies(),
            final(self).cluster() == old(self).cluster(),
            final(self).local() == old(self).local(),
            final(self).addr() == old(self).addr(),
    {
        let mut outputs: Vec<DiscoveryOutput> = Vec::new();
        if resp.canceled {
            return (outputs, Err(WatchFailure::Canceled));
        }
        let prefix = self.etcd_ops.peers_prefix();
        let ghost ev = resp.events@.map_values(|e: WatchEvent| e.view_of());
        let ghost pfx = prefix@;
        let ghost local = self.local();
        let ghost sh = self.notifies();
        let ghost k0 = self.known();
        let mut i: usize = 0;
        while i < resp.events.len()
            invariant
                i <= resp.events.len(),
                !resp.canceled,
                ev == resp.events@.map_values(|e: WatchEvent| e.view_of()),
                pfx == prefix@,
                pfx == peers_prefix_text(self.cluster()),
                local == self.local(),
                sh == self.notifies(),
                k0 == old(self).known(),
                !scan_events(pfx, local, sh, k0, ev.take(i as int)).2,
                outputs_match(outputs@, scan_events(pfx, local, sh, k0, ev.take(i as int)).0),
                self.known() == scan_events(pfx, local, sh, k0, ev.take(i as int)).1,
                self.known().no_duplicates(),
                self.notifies() == old(self).notifies(),
                self.cluster() == old(self).cluster(),
                self.local() == old(self).local(),
                self.addr() == old(self).addr(),
            decreases resp.events.len() - i,
        {
            let event = &resp.events[i];
            let ghost prev = scan_events(pfx, local, sh, k0, ev.take(i as int));
            assert(ev.take(i + 1).drop_last() =~= ev.take(i as int));
            assert(ev.take(i + 1).last() == event.view_of());
            let ghost next = scan_events(pfx, local, sh, k0, ev.take(i + 1));
            assert(next == event_step(pfx, local, sh, prev, event.view_of()));
            match &event.kv {
                None => {},
                Some(kv) => {
                    match event.kind {
                        WatchEventKind::Put => {
                            if kv.key.is_none() || kv.value.is_none() {
                                proof {
                                    lemma_scan_events_failed(pfx, local, sh, k0, ev, i + 1);
                                }
                                return (outputs, Err(WatchFailure::Unreadable));
                            }
                            match self.record_addition_of(&prefix, kv) {
                                Some(pa) => {
                                    let ghost before = outputs@;
                                    self.learn(&pa.0);
                                    let (peer_id, addr) = pa;
                                    outputs.push(DiscoveryOutput::Command(DiscoveryCommand::AddPeer { peer_id, addr }));
                                    if self.notifies_sharding {
                                        let peers = self.known_list();
                                        outputs.push(DiscoveryOutput::Topology(peers));
                                    }
                                    proof {
                                        assert forall|k: int| 0 <= k < outputs@.len() implies #[trigger] output_matches(
                                            outputs@[k],
                                            next.0[k],
                                        ) by {
                                            if k < before.len() {
                                                assert(output_matches(before[k], prev.0[k]));
                                            }
                                        }
                                    }
                                },
                                None => {},
                            }
                        },
                        WatchEventKind::Delete => {
                            if kv.key.is_none() {
                                proof {
                                    lemma_scan_events_failed(pfx, local, sh, k0, ev, i + 1);
                                }
                                return (outputs, Err(WatchFailure::Unreadable));
                            }
                            match Self::record_peer_of(&prefix, kv) {
                                Some(p) => {
                                    let ghost before = outputs@;
                                    self.forget(&p);
                                    proof {
                                        lemma_remove_value_no_duplicates(prev.1, p@);
                                    }
                                    outputs.push(DiscoveryOutput::Command(DiscoveryCommand::RemovePeer { peer_id: p }));
                                    if self.notifies_sharding {
                                        let peers = self.known_list();
                                        outputs.push(DiscoveryOutput::Topology(peers));
                                    }
                                    proof {
                                        assert forall|k: int| 0 <= k < outputs@.len() implies #[trigger] output_matches(
                                            outputs@[k],
                                            next.0[k],
                                        ) by {
                                            if k < before.len() {
                                                assert(output_matches(before[k], prev.0[k]));
                                            }
                                        }
                                    }
                                },
                                None => {},
                            }
                        },
                    }
                },
            }
            i = i + 1;
        }
        assert(ev.take(resp.events.len() as int) =~= ev);
        (outputs, Ok(()))
    }
}

proof fn lemma_remove_value_no_duplicates(s: Seq<Seq<char>>, x: Seq<char>)
    requires
        s.no_duplicates(),
    ensures
        s.remove_value(x).no_duplicates(),
{
    s.index_of_first_ensures(x);
    match s.index_of_first(x) {
        Some(i) => {
            let t = s.remove(i);
            assert forall|a: int, b: int| 0 <= a < t.len() && 0 <= b < t.len() && a != b implies t[a] != t[b] by {
                let a2 = if a < i { a } else { a + 1 };
                let b2 = if b < i { b } else { b + 1 };
                assert(t[a] == s[a2] && t[b] == s[b2]);
            }
        },
        None => {},
    }
}

proof fn lemma_scan_events_failed(
    prefix: Seq<char>,
    local: Seq<char>,
    sharding: bool,
    known: Seq<Seq<char>>,
    events: Seq<EventView>,
    j: int,
)
    requires
        0 <= j <= events.len(),
        scan_events(prefix, local, sharding, known, events.take(j)).2,
    ensures
        scan_events(prefix, local, sharding, known, events) == scan_events(prefix, local, sharding, known, events.take(j)),
    decreases events.len() - j,
{
    if j < events.len() {
        assert(events.take(j + 1).drop_last() =~= events.take(j));
        lemma_scan_events_failed(prefix, local, sharding, known, events, j + 1);
    } else {
        assert(events.take(j) =~= events);
    }
}

proof fn lemma_scan_additions_failed(prefix: Seq<char>, local: Seq<char>, records: Seq<RecordView>, j: int)
    requires
        0 <= j <= records.len(),
        scan_additions(prefix, local, records.take(j)).1,
    ensures
        scan_additions(prefix, local, records) == scan_additions(prefix, local, records.take(j)),
    decreases records.len() - j,
{
    if j < records.len() {
        assert(records.take(j + 1).drop_last() =~= records.take(j));
        lemma_scan_additions_failed(prefix, local, records, j + 1);
    } else {
        assert(records.take(j) =~= records);
    }
}

} // verus!

verus! {

/// The peer a record announces, when it announces one.
pub open spec fn announced_peer(prefix: Seq<char>, local: Seq<char>, r: RecordView) -> Seq<char> {
    match record_addition(prefix, local, r) {
        Some(pa) => pa.0,
        None => Seq::empty(),
    }
}

/// A readable put from another peer, announcing a multiaddress, makes the peer known; a
/// readable delete of a peer's key makes it unknown. Known peers are held each once.
pub proof fn lemma_watch_event_updates_known(
    prefix: Seq<char>,
    local: Seq<char>,
    sharding: bool,
    known: Seq<Seq<char>>,
    e: EventView,
)
    requires
        known.no_duplicates(),
    ensures
        ({
            let after = event_step(prefix, local, sharding, (Seq::empty(), known, false), e);
            &&& after.1.no_duplicates()
            &&& (e.kind == WatchEventKind::Put && e.kv is Some && e.kv->0.key is Some && e.kv->0.value is Some
                && record_addition(prefix, local, e.kv->0) is Some) ==> after.1.contains(announced_peer(prefix, local, e.kv->0))
            &&& (e.kind == WatchEventKind::Delete && e.kv is Some && e.kv->0.key is Some && record_peer(prefix, e.kv->0) is Some)
                ==> !after.1.contains(record_peer(prefix, e.kv->0)->0)
            &&& e.kind == WatchEventKind::Put ==> forall|x: Seq<char>| known.contains(x) ==> after.1.contains(x)
            &&& sharding && after.0.len() > 0 ==> after.0.last() == OutputView::Topology(after.1)
        }),
{
    let after = event_step(prefix, local, sharding, (Seq::empty(), known, false), e);
    if e.kv is Some {
        let r = e.kv->0;
        if e.kind == WatchEventKind::Delete && r.key is Some && record_peer(prefix, r) is Some {
            let p = record_peer(prefix, r)->0;
            lemma_remove_value_no_duplicates(known, p);
            known.index_of_first_ensures(p);
            if after.1.contains(p) {
                let i = known.index_of_first(p)->0;
                let j = choose|j: int| 0 <= j < after.1.len() && after.1[j] == p;
                let j2 = if j < i { j } else { j + 1 };
                assert(known[j2] == p);
            }
        }
        if e.kind == WatchEventKind::Put && r.key is Some && r.value is Some && record_addition(prefix, local, r) is Some {
            let p = announced_peer(prefix, local, r);
            if !known.contains(p) {
                assert(known.push(p)[known.len() as int] == p);
                assert forall|a: int, b: int| 0 <= a < known.push(p).len() && 0 <= b < known.push(p).len() && a != b
                    implies known.push(p)[a] != known.push(p)[b] by {
                    if a < known.len() && b < known.len() {
                    } else if a < known.len() {
                        assert(known.contains(known[a]));
                    } else {
                        assert(known.contains(known[b]));
                    }
                }
            }
            assert forall|x: Seq<char>| known.contains(x) implies after.1.contains(x) by {
                let k = choose|k: int| 0 <= k < known.len() && known[k] == x;
                assert(after.1[k] == x);
            }
        }
    }
}

/// A node never announces itself: no peer the initial listing adds is the local peer,
/// whatever the records hold.
pub proof fn lemma_scan_never_adds_local(prefix: Seq<char>, local: Seq<char>, records: Seq<RecordView>)
    ensures
        forall|i: int|
            0 <= i < scan_additions(prefix, local, records).0.len() ==> (#[trigger] scan_additions(prefix, local, records).0[i]).0
                != local,
    decreases records.len(),
{
    if records.len() > 0 {
        lemma_scan_never_adds_local(prefix, local, records.drop_last());
        let prev = scan_additions(prefix, local, records.drop_last());
        let cur = scan_additions(prefix, local, records);
        let r = records.last();
        assert forall|i: int| 0 <= i < cur.0.len() implies (#[trigger] cur.0[i]).0 != local by {
            if i < prev.0.len() {
                assert(prev.0[i].0 != local);
            } else {
                assert(record_addition(prefix, local, r) is Some);
                assert(cur.0[i] == record_addition(prefix, local, r)->0);
            }
        }
    }
}

proof fn lemma_remove_value_keeps_other(s: Seq<Seq<char>>, p: Seq<char>, x: Seq<char>)
    requires
        s.contains(x),
        x != p,
    ensures
        s.remove_value(p).contains(x),
{
    s.index_of_first_ensures(p);
    let k = choose|k: int| 0 <= k < s.len() && s[k] == x;
    match s.index_of_first(p) {
        Some(i) => {
            let t = s.remove(i);
            let k2 = if k < i { k } else { k - 1 };
            assert(t[k2] == x);
        },
        None => {},
    }
}

proof fn lemma_add_known_props(known: Seq<Seq<char>>, p: Seq<char>, x: Seq<char>)
    requires
        known.no_duplicates(),
        known.contains(x),
    ensures
        add_known(known, p).no_duplicates(),
        add_known(known, p).contains(x),
{
    if !known.contains(p) {
        let t = known.push(p);
        let k = choose|k: int| 0 <= k < known.len() && known[k] == x;
        assert(t[k] == x);
        assert forall|a: int, b: int| 0 <= a < t.len() && 0 <= b < t.len() && a != b implies t[a] != t[b] by {
            if a < known.len() && b < known.len() {
            } else if a < known.len() {
                assert(known.contains(known[a]));
            } else {
                assert(known.contains(known[b]));
            }
        }
    }
}

/// The event does not delete the key of `local` itself.
pub open spec fn spares_local(prefix: Seq<char>, local: Seq<char>, e: EventView) -> bool {
    !(e.kind == WatchEventKind::Delete && e.kv is Some && record_peer(prefix, e.kv->0) == Some(local))
}

/// Every peer list handed to the sharding coordinator is duplicate-free and holds `local`.
pub open spec fn topologies_hold(local: Seq<char>, outputs: Seq<OutputView>) -> bool {
    forall|k: int|
        0 <= k < outputs.len() ==> match #[trigger] outputs[k] {
            OutputView::Topology(t) => t.no_duplicates() && t.contains(local),
            _ => true,
        }
}

/// The local peer stays known: starting from known peers that hold it once, a run of
/// watch events that never deletes this node's own key keeps it known, keeps the known
/// peers duplicate-free, and every peer list handed to the sharding coordinator holds it
/// without duplicates. (A delete of this node's own key does remove it.)
pub proof fn lemma_local_peer_stays_known(
    prefix: Seq<char>,
    local: Seq<char>,
    sharding: bool,
    known: Seq<Seq<char>>,
    events: Seq<EventView>,
)
    requires
        known.no_duplicates(),
        known.contains(local),
        forall|i: int| 0 <= i < events.len() ==> spares_local(prefix, local, #[trigger] events[i]),
    ensures
        ({
            let sc = scan_events(prefix, local, sharding, known, events);
            &&& sc.1.contains(local)
            &&& sc.1.no_duplicates()
            &&& topologies_hold(local, sc.0)
        }),
    decreases events.len(),
{
    if events.len() > 0 {
        let init = events.drop_last();
        assert forall|i: int| 0 <= i < init.len() implies spares_local(prefix, local, #[trigger] init[i]) by {
            assert(init[i] == events[i]);
        }
        lemma_local_peer_stays_known(prefix, local, sharding, known, init);
        let st = scan_events(prefix, local, sharding, known, init);
        let e = events.last();
        assert(spares_local(prefix, local, events[events.len() - 1]));
        let next = event_step(prefix, local, sharding, st, e);
        assert(next == scan_events(prefix, local, sharding, known, events));
        if !st.2 && e.kv is Some {
            let r = e.kv->0;
            if e.kind == WatchEventKind::Put && !(r.key is None || r.value is None) && record_addition(prefix, local, r) is Some {
                let pa = record_addition(prefix, local, r)->0;
                lemma_add_known_props(st.1, pa.0, local);
                let kk = add_known(st.1, pa.0);
                assert(next.0 == st.0.push(OutputView::Add(pa.0, pa.1)) + topology_output(sharding, kk));
                assert forall|k: int| 0 <= k < next.0.len() implies match #[trigger] next.0[k] {
                    OutputView::Topology(t) => t.no_duplicates() && t.contains(local),
                    _ => true,
                } by {
                    if k < st.0.len() {
                        assert(next.0[k] == st.0[k]);
                    }
                }
            } else if e.kind == WatchEventKind::Delete && r.key is Some && record_peer(prefix, r) is Some {
                let p = record_peer(prefix, r)->0;
                assert(p != local);
                lemma_remove_value_no_duplicates(st.1, p);
                lemma_remove_value_keeps_other(st.1, p, local);
                let kk = st.1.remove_value(p);
                assert(next.0 == st.0.push(OutputView::Remove(p)) + topology_output(sharding, kk));
                assert forall|k: int| 0 <= k < next.0.len() implies match #[trigger] next.0[k] {
                    OutputView::Topology(t) => t.no_duplicates() && t.contains(local),
                    _ => true,
                } by {
                    if k < st.0.len() {
                        assert(next.0[k] == st.0[k]);
                    }
                }
            }
        }
    }
}

/// Convergence keeps the local peer known: adding the announced peers in turn to known
/// peers that hold it once keeps it there, and keeps them duplicate-free (so the peer
/// list handed to the sharding coordinator after convergence holds it once).
pub proof fn lemma_convergence_keeps_local(known: Seq<Seq<char>>, added: Seq<(Seq<char>, Seq<char>)>, local: Seq<char>)
    requires
        known.no_duplicates(),
        known.contains(local),
    ensures
        add_all_known(known, added).no_duplicates(),
        add_all_known(known, added).contains(local),
    decreases added.len(),
{
    if added.len() > 0 {
        lemma_convergence_keeps_local(known, added.drop_last(), local);
        lemma_add_known_props(add_all_known(known, added.drop_last()), added.last().0, local);
    }
}

} // verus!
