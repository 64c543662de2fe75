//! Messages of the sharding coordinator. Peers are named by their base58 id text.
use vstd::prelude::*;

verus! {

/// Query which node owns a machine.
pub struct LookupMachine {
    pub machine_id: String,
}

/// Result of a machine lookup.
pub struct LookupResult {
    /// The machine ID that was looked up
    pub machine_id: String,
    /// The peer that owns this machine (None if no nodes)
    pub owner_peer: Option<String>,
    /// Whether the owner is the local node
    pub is_local: bool,
}

/// Topology change notification carrying the complete list of active peers.
pub struct TopologyChanged {
    pub peers: Vec<String>,
}

/// Acknowledgement of a topology change.
pub struct TopologyAck {
    /// Number of nodes before the change
    pub previous_count: usize,
    /// Number of nodes after the change
    pub new_count: usize,
}

/// Request current shard statistics.
pub struct GetShardStats;

/// Shard statistics response.
pub struct ShardStats {
    /// Number of nodes in the cluster
    pub node_count: usize,
    /// Local peer ID (base58 encoded)
    pub local_peer_id: String,
}

} // verus!
