//! The sharding coordinator: answers which node owns a machine, and rebuilds its
//! Maglev table when the topology changes.
use vstd::prelude::*;
use crate::sharding::maglev::{arranged_from, maglev_owner, MaglevHasher, DEFAULT_TABLE_SIZE};
use crate::sharding::messages::{GetShardStats, LookupMachine, LookupResult, ShardStats, TopologyAck, TopologyChanged};

verus! {

/// Coordinates machine actor sharding across cluster nodes.
pub struct ShardingCoordinator {
    /// Local peer ID
    local_peer_id: String,
    /// Maglev hash table
    hasher: MaglevHasher,
}

impl ShardingCoordinator {
    /// The local peer's id text.
    pub closed spec fn local_view(&self) -> Seq<char> {
        self.local_peer_id@
    }

    /// The nodes of the table, in ascending order.
    pub closed spec fn nodes_view(&self) -> Seq<Seq<char>> {
        self.hasher@
    }

    /// Creates a coordinator; the local peer should be among `initial_peers`.
    pub fn new(local_peer_id: String, initial_peers: Vec<String>) -> (r: Self)
        ensures
            r.local_view() == local_peer_id@,
            arranged_from(r.nodes_view(), initial_peers@),
    {
        ShardingCoordinator { local_peer_id, hasher: MaglevHasher::new(initial_peers) }
    }

    /// The local peer ID.
    pub fn local_peer_id(&self) -> (r: &String)
        ensures
            r@ == self.local_view(),
    {
        &self.local_peer_id
    }

    /// Answers a lookup: the owner of the machine and whether it is this node.
    pub fn handle_lookup_machine(&self, msg: LookupMachine) -> (r: LookupResult)
        ensures
            r.machine_id@ == msg.machine_id@,
            match r.owner_peer {
                Some(p) => maglev_owner(self.nodes_view(), DEFAULT_TABLE_SIZE as int, msg.machine_id@) == Some(p@),
                None => maglev_owner(self.nodes_view(), DEFAULT_TABLE_SIZE as int, msg.machine_id@) is None,
            },
            r.is_local == (maglev_owner(self.nodes_view(), DEFAULT_TABLE_SIZE as int, msg.machine_id@)
                == Some(self.local_view())),
    {
        let owner_peer = match self.hasher.lookup(msg.machine_id.as_str()) {
            Some(p) => Some(p.clone()),
            None => None,
        };
        let is_local = match &owner_peer {
            Some(p) => *p == self.local_peer_id,
            None => false,
        };
        LookupResult { machine_id: msg.machine_id, owner_peer, is_local }
    }

    /// Rebuilds the table from the complete new peer list.
    pub fn handle_topology_changed(&mut self, msg: TopologyChanged) -> (r: TopologyAck)
        ensures
            r.previous_count == old(self).nodes_view().len(),
            r.new_count == msg.peers@.len(),
            arranged_from(final(self).nodes_view(), msg.peers@),
            final(self).local_view() == old(self).local_view(),
    {
        let previous_count = self.hasher.node_count();
        let new_count = msg.peers.len();
        self.hasher.rebuild(msg.peers);
        TopologyAck { previous_count, new_count }
    }

    /// Current shard statistics.
    pub fn handle_get_shard_stats(&self, _msg: GetShardStats) -> (r: ShardStats)
        ensures
            r.node_count == self.nodes_view().len(),
            r.local_peer_id@ == self.local_view(),
    {
        ShardStats { node_count: self.hasher.node_count(), local_peer_id: self.local_peer_id.clone() }
    }
}

} // verus!
