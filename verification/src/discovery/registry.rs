//! The simpler etcd registry of peers: each peer puts its multiaddress under its id, and
//! peers find each other by listing the prefix.
use vstd::prelude::*;
use crate::discovery::phases::{announced_peers, pair_texts, scan_additions, PeerRecord, RecordView};

verus! {

/// Where peers register.
pub open spec fn registry_prefix_text() -> Seq<char> {
    "/neolaas/peers/"@
}

/// Lifetime of a registration lease, in seconds.
pub const LEASE_TTL: i64 = 10;

/// Why a listing of the registry could not be read.
#[derive(Clone, Copy, Debug, PartialEq, Eq, Structural)]
pub enum RegistryError {
    /// A key or value was not valid UTF-8
    Unreadable,
}

/// A listed key/value pair as a record whose address is the value itself.
pub open spec fn registry_record(kv: (Option<Seq<char>>, Option<Seq<char>>)) -> RecordView {
    RecordView { key: kv.0, value: kv.1, addr: kv.1 }
}

pub open spec fn opt_views(kvs: Seq<(Option<String>, Option<String>)>) -> Seq<(Option<Seq<char>>, Option<Seq<char>>)> {
    kvs.map_values(
        |kv: (Option<String>, Option<String>)|
            (
                match kv.0 {
                    Some(s) => Some(s@),
                    None => None,
                },
                match kv.1 {
                    Some(s) => Some(s@),
                    None => None,
                },
            ),
    )
}

/// Etcd-based peer registry.
pub struct PeerRegistry {
    local_peer_id: String,
    local_addr: String,
}

impl PeerRegistry {
    pub closed spec fn local(&self) -> Seq<char> {
        self.local_peer_id@
    }

    pub closed spec fn addr(&self) -> Seq<char> {
        self.local_addr@
    }

    /// A registry for the peer `local_peer_id` (base58 text) listening at `local_addr`.
    pub fn new(local_peer_id: String, local_addr: String) -> (r: Self)
        ensures
            r.local() == local_peer_id@,
            r.addr() == local_addr@,
    {
        PeerRegistry { local_peer_id, local_addr }
    }

    /// The key and value this peer registers under its lease.
    pub fn registration(&self) -> (r: (String, String))
        ensures
            r.0@ == registry_prefix_text() + self.local(),
            r.1@ == self.addr(),
    {
        (String::from_str("/neolaas/peers/").concat(self.local_peer_id.as_str()), self.local_addr.clone())
    }

    /// The other peers a listing of the registry names, each with its multiaddress, in
    /// listing order; keys that are not a peer id and values that are not a multiaddress
    /// are passed over. A key or value that is not text fails the whole listing.
    pub fn discover_peers(&self, kvs: Vec<(Option<String>, Option<String>)>) -> (r: Result<
        Vec<(String, String)>,
        RegistryError,
    >)
        ensures
            ({
                let scan = scan_additions(
                    registry_prefix_text(),
                    self.local(),
                    opt_views(kvs@).map_values(|kv: (Option<Seq<char>>, Option<Seq<char>>)| registry_record(kv)),
                );
                match r {
                    Ok(peers) => !scan.1 && pair_texts(peers@) == scan.0,
                    Err(e) => scan.1 && e == RegistryError::Unreadable,
                }
            }),
    {
        let mut records: Vec<PeerRecord> = Vec::new();
        let mut i: usize = 0;
        while i < kvs.len()
            invariant
                i <= kvs.len(),
                records@.map_values(|x: PeerRecord| x.view_of()) =~= opt_views(kvs@).take(i as int).map_values(
                    |kv: (Option<Seq<char>>, Option<Seq<char>>)| registry_record(kv),
                ),
            decreases kvs.len() - i,
        {
            let kv = &kvs[i];
            let value = match &kv.1 {
                Some(v) => Some(v.clone()),
                None => None,
            };
            let addr = match &kv.1 {
                Some(v) => Some(v.clone()),
                None => None,
            };
            let key = match &kv.0 {
                Some(k) => Some(k.clone()),
                None => None,
            };
            let ghost before = records@;
            records.push(PeerRecord { key, value, addr });
            assert(records@.map_values(|x: PeerRecord| x.view_of()) =~= before.map_values(|x: PeerRecord| x.view_of()).push(
                registry_record(opt_views(kvs@)[i as int]),
            ));
            i = i + 1;
            assert(opt_views(kvs@).take(i as int) =~= opt_views(kvs@).take(i - 1).push(opt_views(kvs@)[i - 1]));
        }
        assert(opt_views(kvs@).take(kvs.len() as int) =~= opt_views(kvs@));
        let prefix = String::from_str("/neolaas/peers/");
        let (peers, failed) = announced_peers(&prefix, &self.local_peer_id, &records);
        if failed {
            Err(RegistryError::Unreadable)
        } else {
            Ok(peers)
        }
    }
}

} // verus!
