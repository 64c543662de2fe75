//! What the HTTP handlers compute from the actors' replies.
use vstd::prelude::*;
use crate::clock::Timestamp;
use crate::health::StatsReply;
use crate::machines::messages::{state_name, MachineStatus};
use crate::models::{HostAllocation, ProvisionState};

verus! {

/// Response for GET /actors/machines.
pub struct MachinesResponse {
    pub machines: Vec<MachineInfo>,
}

/// Information about a single machine.
pub struct MachineInfo {
    pub machine_id: String,
    pub state: String,
    pub admin_state: String,
    pub cluster: String,
    pub current_booking: Option<String>,
    pub last_activity: Option<i64>,
}

impl MachineInfo {
    /// A machine's status as the API shows it, its state written out.
    pub fn from_status(s: MachineStatus) -> (r: MachineInfo)
        ensures
            r.machine_id == s.machine_id,
            r.state@ == state_name(s.state),
            r.admin_state == s.admin_state,
            r.cluster == s.cluster,
            r.current_booking == s.current_booking,
            r.last_activity == s.last_activity,
    {
        let state = s.state.to_string();
        MachineInfo {
            machine_id: s.machine_id,
            state,
            admin_state: s.admin_state,
            cluster: s.cluster,
            current_booking: s.current_booking,
            last_activity: s.last_activity,
        }
    }
}

impl MachinesResponse {
    /// The response listing every status, in order.
    pub fn from_statuses(statuses: Vec<MachineStatus>) -> (r: MachinesResponse)
        ensures
            r.machines.len() == statuses.len(),
            forall|i: int| 0 <= i < statuses.len() ==> {
                &&& (#[trigger] r.machines@[i]).machine_id == statuses@[i].machine_id
                &&& r.machines@[i].state@ == state_name(statuses@[i].state)
            },
    {
        let mut machines: Vec<MachineInfo> = Vec::new();
        let mut rest = statuses;
        let ghost all = rest@;
        while rest.len() > 0
            invariant
                machines.len() + rest.len() == all.len(),
                rest@ == all.subrange(machines.len() as int, all.len() as int),
                forall|i: int| 0 <= i < machines.len() ==> {
                    &&& (#[trigger] machines@[i]).machine_id == all[i].machine_id
                    &&& machines@[i].state@ == state_name(all[i].state)
                },
            decreases rest.len(),
        {
            let s = rest.remove(0);
            assert(s == all[machines.len() as int]);
            machines.push(MachineInfo::from_status(s));
            assert(rest@ =~= all.subrange(machines.len() as int, all.len() as int));
        }
        MachinesResponse { machines }
    }
}

/// The local node's ping statistics.
pub struct LocalStats {
    pub pings_received: u64,
    pub pongs_sent: u64,
}

/// A remote peer's ping statistics.
pub struct RemotePeerStats {
    pub peer_id: String,
    pub node_id: String,
    pub pings_received: u64,
    pub pongs_sent: u64,
    pub reachable: bool,
}

/// P2P statistics response.
pub struct P2PStatsResponse {
    pub node_id: String,
    pub peer_id: String,
    pub local_stats: LocalStats,
    pub remote_peers: Vec<RemotePeerStats>,
}

/// The rows of the peers that answered or failed to answer a stats query, in order,
/// leaving out this node's own actor.
pub open spec fn remote_rows_spec(local_peer: Seq<char>, replies: Seq<(Option<String>, Option<StatsReply>)>) -> Seq<(Option<String>, Option<StatsReply>)>
    decreases replies.len(),
{
    if replies.len() == 0 {
        Seq::empty()
    } else {
        let prev = remote_rows_spec(local_peer, replies.drop_last());
        let last = replies.last();
        match last.0 {
            Some(p) => if p@ == local_peer {
                prev
            } else {
                prev.push(last)
            },
            None => prev.push(last),
        }
    }
}

/// The P2P statistics response: this node's counters, and one row per other peer's ping
/// actor (each `(peer id, stats reply)`, the reply `None` when the query failed).
pub fn p2p_stats_response(
    node_id: &String,
    local_peer: &String,
    local: StatsReply,
    replies: Vec<(Option<String>, Option<StatsReply>)>,
) -> (r: P2PStatsResponse)
    ensures
        r.node_id@ == node_id@,
        r.peer_id@ == local_peer@,
        r.local_stats.pings_received == local.pings_received,
        r.local_stats.pongs_sent == local.pongs_sent,
        r.remote_peers@.len() == remote_rows_spec(local_peer@, replies@).len(),
        forall|i: int| 0 <= i < r.remote_peers@.len() ==> {
            let row = #[trigger] r.remote_peers@[i];
            let src = remote_rows_spec(local_peer@, replies@)[i];
            &&& row.peer_id@ == match src.0 {
                Some(p) => p@,
                None => "unknown"@,
            }
            &&& match src.1 {
                Some(s) => row.reachable && row.node_id == s.node_id && row.pings_received == s.pings_received
                    && row.pongs_sent == s.pongs_sent,
                None => !row.reachable && row.node_id@ == "unknown"@ && row.pings_received == 0 && row.pongs_sent == 0,
            }
        },
{
    let mut rows: Vec<RemotePeerStats> = Vec::new();
    let mut rest = replies;
    let ghost all = rest@;
    let ghost mut done: nat = 0;
    while rest.len() > 0
        invariant
            done + rest@.len() == all.len(),
            rest@ == all.subrange(done as int, all.len() as int),
            rows@.len() == remote_rows_spec(local_peer@, all.take(done as int)).len(),
            forall|i: int| 0 <= i < rows@.len() ==> {
                let row = #[trigger] rows@[i];
                let src = remote_rows_spec(local_peer@, all.take(done as int))[i];
                &&& row.peer_id@ == match src.0 {
                    Some(p) => p@,
                    None => "unknown"@,
                }
                &&& match src.1 {
                    Some(s) => row.reachable && row.node_id == s.node_id && row.pings_received == s.pings_received
                        && row.pongs_sent == s.pongs_sent,
                    None => !row.reachable && row.node_id@ == "unknown"@ && row.pings_received == 0 && row.pongs_sent
                        == 0,
                }
            },
        decreases rest.len(),
    {
        let (peer, reply) = rest.remove(0);
        assert(all.take((done + 1) as int).drop_last() =~= all.take(done as int));
        assert(all[done as int] == (peer, reply));
        let is_self = match &peer {
            Some(p) => *p == *local_peer,
            None => false,
        };
        if !is_self {
            rows.push(remote_peer_stats(peer, reply));
        }
        proof {
            done = done + 1;
        }
        assert(rest@ =~= all.subrange(done as int, all.len() as int));
    }
    assert(all.take(all.len() as int) =~= all);
    P2PStatsResponse {
        node_id: node_id.clone(),
        peer_id: local_peer.clone(),
        local_stats: LocalStats { pings_received: local.pings_received, pongs_sent: local.pongs_sent },
        remote_peers: rows,
    }
}

/// Broadcast message request.
pub struct BroadcastRequest {
    pub content: String,
}

/// Broadcast message response.
pub struct BroadcastResponse {
    pub message: String,
    pub peers_reached: usize,
    pub peers_failed: usize,
}

/// A remote peer's row: its statistics when it answered, zeros and `unknown` when not.
pub fn remote_peer_stats(peer_id: Option<String>, reply: Option<StatsReply>) -> (r: RemotePeerStats)
    ensures
        r.peer_id@ == match peer_id {
            Some(p) => p@,
            None => "unknown"@,
        },
        match reply {
            Some(s) => r.reachable && r.node_id == s.node_id && r.pings_received == s.pings_received && r.pongs_sent
                == s.pongs_sent,
            None => !r.reachable && r.node_id@ == "unknown"@ && r.pings_received == 0 && r.pongs_sent == 0,
        },
{
    let peer_id = match peer_id {
        Some(p) => p,
        None => String::from_str("unknown"),
    };
    match reply {
        Some(stats) => RemotePeerStats {
            peer_id,
            node_id: stats.node_id,
            pings_received: stats.pings_received,
            pongs_sent: stats.pongs_sent,
            reachable: true,
        },
        None => RemotePeerStats {
            peer_id,
            node_id: String::from_str("unknown"),
            pings_received: 0,
            pongs_sent: 0,
            reachable: false,
        },
    }
}

/// Number of entries of `acks` equal to `Some(true)`.
pub open spec fn count_reached(acks: Seq<Option<bool>>) -> nat
    decreases acks.len(),
{
    if acks.len() == 0 {
        0
    } else {
        count_reached(acks.drop_last()) + if acks.last() == Some(true) { 1nat } else { 0nat }
    }
}

/// The broadcast response: a peer counts as reached when it acknowledged with success,
/// as failed otherwise (a negative acknowledgement, or no answer).
pub fn broadcast_outcome(content: &str, acks: Vec<Option<bool>>) -> (r: BroadcastResponse)
    ensures
        r.message@ == "Broadcast sent: '"@ + content@ + "'"@,
        r.peers_reached == count_reached(acks@),
        r.peers_reached + r.peers_failed == acks.len(),
{
    let mut reached: usize = 0;
    let mut failed: usize = 0;
    let mut i: usize = 0;
    while i < acks.len()
        invariant
            i <= acks.len(),
            reached == count_reached(acks@.take(i as int)),
            reached + failed == i,
        decreases acks.len() - i,
    {
        assert(acks@.take(i + 1).drop_last() =~= acks@.take(i as int));
        match acks[i] {
            Some(true) => {
                reached = reached + 1;
            },
            _ => {
                failed = failed + 1;
            },
        }
        i = i + 1;
    }
    assert(acks@.take(acks.len() as int) =~= acks@);
    let message = String::from_str("Broadcast sent: '").concat(content).concat("'");
    BroadcastResponse { message, peers_reached: reached, peers_failed: failed }
}

/// Get host status.
pub struct GetHostStatus;

/// A host actor's status.
pub struct HostStatus {
    pub host_id: String,
    pub allocation_id: u128,
    pub booking_id: u128,
    pub provision_state: ProvisionState,
    pub allocated_at: Timestamp,
    pub expires_at: Timestamp,
}

impl HostStatus {
    /// The status of the host holding `allocation`.
    pub fn of(host_id: &String, allocation: &HostAllocation) -> (r: HostStatus)
        ensures
            r.host_id@ == host_id@,
            r.allocation_id == allocation.id,
            r.booking_id == allocation.booking_id,
            r.provision_state == allocation.provision_state,
            r.allocated_at == allocation.allocated_at,
            r.expires_at == allocation.expires_at,
    {
        HostStatus {
            host_id: host_id.clone(),
            allocation_id: allocation.id,
            booking_id: allocation.booking_id,
            provision_state: allocation.provision_state,
            allocated_at: allocation.allocated_at,
            expires_at: allocation.expires_at,
        }
    }
}

/// What a finished provisioning reports.
pub fn provisioned_message(host_id: &str, image: &str) -> (r: String)
    ensures
        r@ == "Host "@ + host_id@ + " provisioned with "@ + image@,
{
    String::from_str("Host ").concat(host_id).concat(" provisioned with ").concat(image)
}

/// The statistics response has one row per reply of another peer, in order, whether or
/// not that peer answered: only this node's own actor is left out.
pub proof fn lemma_remote_rows_keep_every_other_peer(
    local_peer: Seq<char>,
    replies: Seq<(Option<String>, Option<StatsReply>)>,
)
    ensures
        remote_rows_spec(local_peer, replies) == replies.filter(
            |r: (Option<String>, Option<StatsReply>)| !(r.0 is Some && r.0->0@ == local_peer),
        ),
    decreases replies.len(),
{
    reveal(Seq::filter);
    if replies.len() > 0 {
        lemma_remote_rows_keep_every_other_peer(local_peer, replies.drop_last());
    }
}

} // verus!
