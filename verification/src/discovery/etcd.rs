//! Where discovery keeps its records in etcd, and what a record holds.
use vstd::prelude::*;

verus! {

/// Peer metadata stored in etcd.
pub struct PeerMetadata {
    /// Full libp2p multiaddress
    pub multiaddr: String,
    /// Application-specific metadata
    pub meta: Vec<(String, String)>,
    /// Shard identifier (for sharding strategies)
    pub shard: u32,
}

/// The etcd prefix under which the peers of `cluster_id` are registered.
pub open spec fn peers_prefix_text(cluster_id: Seq<char>) -> Seq<char> {
    "/kameo/v1/clusters/"@ + cluster_id + "/peers/"@
}

/// The etcd key of `peer` in `cluster_id`.
pub open spec fn peer_key_text(cluster_id: Seq<char>, peer: Seq<char>) -> Seq<char> {
    peers_prefix_text(cluster_id) + peer
}

/// The etcd naming of one cluster.
pub struct EtcdOperations {
    pub cluster_id: String,
}

impl EtcdOperations {
    /// Get the etcd key for a peer (named by its base58 id text).
    pub fn peer_key(&self, peer_id: &String) -> (r: String)
        ensures
            r@ == peer_key_text(self.cluster_id@, peer_id@),
    {
        String::from_str("/kameo/v1/clusters/").concat(self.cluster_id.as_str()).concat("/peers/").concat(
            peer_id.as_str(),
        )
    }

    /// Get the etcd prefix for all peers in the cluster.
    pub fn peers_prefix(&self) -> (r: String)
        ensures
            r@ == peers_prefix_text(self.cluster_id@),
    {
        String::from_str("/kameo/v1/clusters/").concat(self.cluster_id.as_str()).concat("/peers/")
    }
}

} // verus!
