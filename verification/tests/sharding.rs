use libp2p::identity::Keypair;
use libp2p::PeerId;
use neolaas::sharding::coordinator::ShardingCoordinator;
use neolaas::sharding::maglev::MaglevHasher;
use neolaas::sharding::messages::{GetShardStats, LookupMachine, TopologyChanged};
use neolaas::sharding::rendezvous::RendezvousHasher;

fn generate_peer_ids(count: usize) -> Vec<String> {
    (0..count)
        .map(|_| {
            let keypair = Keypair::generate_ed25519();
            PeerId::from(keypair.public()).to_base58()
        })
        .collect()
}

// Maglev

#[test]
fn test_empty_nodes_returns_none() {
    let hasher = MaglevHasher::new(vec![]);
    assert!(hasher.lookup("any-key").is_none());
    assert_eq!(hasher.node_count(), 0);
}

#[test]
fn test_single_node_owns_all_keys() {
    let peers = generate_peer_ids(1);
    let hasher = MaglevHasher::new(peers.clone());
    for i in 0..100 {
        let key = format!("machine-{i}");
        assert_eq!(hasher.lookup(&key), Some(&peers[0]));
    }
}

#[test]
fn test_deterministic_hashing() {
    let peers = generate_peer_ids(5);
    let hasher1 = MaglevHasher::new(peers.clone());
    let hasher2 = MaglevHasher::new(peers.clone());
    for i in 0..100 {
        let key = format!("machine-{i}");
        assert_eq!(hasher1.lookup(&key), hasher2.lookup(&key));
    }
}

#[test]
fn test_distribution_is_roughly_even() {
    let peers = generate_peer_ids(4);
    let hasher = MaglevHasher::new(peers.clone());
    let mut counts = vec![0usize; 4];
    let num_keys = 10000;
    for i in 0..num_keys {
        let key = format!("machine-{i}");
        if let Some(owner) = hasher.lookup(&key) {
            if let Some(idx) = peers.iter().position(|p| p == owner) {
                counts[idx] += 1;
            }
        }
    }
    let expected = num_keys / 4;
    let tolerance = expected * 15 / 100;
    for (i, count) in counts.iter().enumerate() {
        assert!(
            (*count as i64 - expected as i64).unsigned_abs() < tolerance as u64,
            "Node {i} got {count} keys, expected ~{expected} (tolerance {tolerance})"
        );
    }
}

#[test]
fn test_minimal_disruption_on_node_removal() {
    let peers = generate_peer_ids(4);
    let hasher = MaglevHasher::new(peers.clone());
    let mut initial_assignments = Vec::new();
    for i in 0..1000 {
        let key = format!("machine-{i}");
        initial_assignments.push((key.clone(), hasher.lookup(&key).cloned()));
    }
    let remaining: Vec<String> = peers.iter().skip(1).cloned().collect();
    let removed_peer = &peers[0];
    let new_hasher = MaglevHasher::new(remaining.clone());
    let mut moved = 0;
    let mut stayed = 0;
    for (key, old_owner) in &initial_assignments {
        let new_owner = new_hasher.lookup(key);
        match old_owner {
            Some(old) if old == removed_peer => {
                moved += 1;
            }
            Some(old) => {
                if new_owner != Some(old) {
                    moved += 1;
                } else {
                    stayed += 1;
                }
            }
            None => {}
        }
    }
    let total = moved + stayed;
    let move_percentage = (moved as f64 / total as f64) * 100.0;
    assert!(move_percentage < 35.0, "Too many keys moved: {move_percentage:.1}% (expected ~25%)");
}

#[test]
fn test_is_local() {
    let peers = generate_peer_ids(3);
    let hasher = MaglevHasher::new(peers.clone());
    for peer in &peers {
        let mut found = false;
        for i in 0..1000 {
            let key = format!("test-{i}");
            if hasher.is_local(&key, peer) {
                found = true;
                break;
            }
        }
        assert!(found, "Could not find any key owned by peer {peer}");
    }
}

#[test]
fn test_rebuild_maintains_consistency() {
    let peers = generate_peer_ids(3);
    let mut hasher = MaglevHasher::new(peers.clone());
    let key = "test-key";
    let initial_owner = hasher.lookup(key).cloned();
    hasher.rebuild(peers.clone());
    let after_rebuild = hasher.lookup(key).cloned();
    assert_eq!(initial_owner, after_rebuild);
}

#[test]
fn maglev_input_order_does_not_matter() {
    let peers = generate_peer_ids(4);
    let mut reversed = peers.clone();
    reversed.reverse();
    let a = MaglevHasher::new(peers.clone());
    let b = MaglevHasher::new(reversed);
    assert_eq!(a.nodes(), b.nodes());
    for i in 0..200 {
        let key = format!("machine-{i}");
        assert_eq!(a.lookup(&key), b.lookup(&key));
    }
}

#[test]
fn maglev_nodes_are_sorted_and_owners_are_members() {
    let names = vec!["c".to_string(), "a".to_string(), "b".to_string()];
    let hasher = MaglevHasher::new(names.clone());
    assert_eq!(hasher.nodes(), &vec!["a".to_string(), "b".to_string(), "c".to_string()]);
    assert_eq!(hasher.node_count(), 3);
    for i in 0..300 {
        let key = format!("k{i}");
        let owner = hasher.lookup(&key).unwrap();
        assert!(names.contains(owner));
        assert!(hasher.is_local(&key, owner));
    }
}

// Rendezvous

#[test]
fn test_empty_returns_none() {
    let hasher = RendezvousHasher::new(vec![]);
    assert!(hasher.lookup("any-key").is_none());
    assert_eq!(hasher.node_count(), 0);
}

#[test]
fn test_single_node_owns_all() {
    let peers = generate_peer_ids(1);
    let hasher = RendezvousHasher::new(peers.clone());
    for i in 0..100 {
        let key = format!("machine-{i}");
        assert_eq!(hasher.lookup(&key), Some(&peers[0]));
    }
}

#[test]
fn test_deterministic() {
    let peers = generate_peer_ids(5);
    let h1 = RendezvousHasher::new(peers.clone());
    let h2 = RendezvousHasher::new(peers.clone());
    for i in 0..100 {
        let key = format!("machine-{i}");
        assert_eq!(h1.lookup(&key), h2.lookup(&key));
    }
}

#[test]
fn test_even_distribution() {
    let peers = generate_peer_ids(4);
    let hasher = RendezvousHasher::new(peers.clone());
    let mut counts = vec![0usize; 4];
    let num_keys = 10000;
    for i in 0..num_keys {
        let key = format!("machine-{i}");
        if let Some(owner) = hasher.lookup(&key) {
            if let Some(idx) = peers.iter().position(|p| p == owner) {
                counts[idx] += 1;
            }
        }
    }
    let expected = num_keys / 4;
    let tolerance = expected / 10;
    for (i, count) in counts.iter().enumerate() {
        assert!(
            (*count as i64 - expected as i64).unsigned_abs() < tolerance as u64,
            "Node {i}: got {count}, expected ~{expected} (±{tolerance})"
        );
    }
}

#[test]
fn test_minimal_disruption() {
    let peers = generate_peer_ids(4);
    let hasher = RendezvousHasher::new(peers.clone());
    let initial: Vec<_> = (0..1000)
        .map(|i| {
            let key = format!("machine-{i}");
            let owner = hasher.lookup(&key).cloned();
            (key, owner)
        })
        .collect();
    let remaining: Vec<String> = peers.iter().skip(1).cloned().collect();
    let new_hasher = RendezvousHasher::new(remaining);
    let mut moved = 0;
    for (key, old_owner) in &initial {
        let new_owner = new_hasher.lookup(key).cloned();
        if old_owner != &new_owner {
            moved += 1;
        }
    }
    let move_pct = (moved as f64 / 1000.0) * 100.0;
    assert!(move_pct < 35.0, "Too many keys moved: {move_pct:.1}% (expected ~25%)");
}

#[test]
fn test_rebuild_consistency() {
    let peers = generate_peer_ids(3);
    let mut hasher = RendezvousHasher::new(peers.clone());
    let key = "test-key";
    let before = hasher.lookup(key).cloned();
    hasher.rebuild(peers);
    let after = hasher.lookup(key).cloned();
    assert_eq!(before, after);
}

#[test]
fn rendezvous_removal_moves_only_the_removed_nodes_keys() {
    let peers = generate_peer_ids(4);
    let hasher = RendezvousHasher::new(peers.clone());
    let remaining: Vec<String> = peers.iter().skip(1).cloned().collect();
    let smaller = RendezvousHasher::new(remaining);
    for i in 0..500 {
        let key = format!("machine-{i}");
        let old = hasher.lookup(&key).unwrap();
        if old != &peers[0] {
            assert_eq!(smaller.lookup(&key), Some(old));
        }
    }
}

#[test]
fn rendezvous_is_local_and_nodes() {
    let names = vec!["n2".to_string(), "n1".to_string()];
    let hasher = RendezvousHasher::new(names.clone());
    assert_eq!(hasher.node_count(), 2);
    assert_eq!(hasher.nodes().len(), 2);
    let owner = hasher.lookup("machine-7").unwrap().clone();
    assert!(hasher.is_local("machine-7", &owner));
    let other = if owner == "n1" { "n2".to_string() } else { "n1".to_string() };
    assert!(!hasher.is_local("machine-7", &other));
}

// Coordinator

#[test]
fn coordinator_lookup_and_topology() {
    let local = "local-peer".to_string();
    let mut coordinator = ShardingCoordinator::new(local.clone(), vec![local.clone()]);
    assert_eq!(coordinator.local_peer_id(), &local);
    let r = coordinator.handle_lookup_machine(LookupMachine { machine_id: "m1".to_string() });
    assert_eq!(r.machine_id, "m1");
    assert_eq!(r.owner_peer, Some(local.clone()));
    assert!(r.is_local);

    let ack = coordinator.handle_topology_changed(TopologyChanged { peers: vec!["other".to_string()] });
    assert_eq!(ack.previous_count, 1);
    assert_eq!(ack.new_count, 1);
    let r = coordinator.handle_lookup_machine(LookupMachine { machine_id: "m1".to_string() });
    assert_eq!(r.owner_peer, Some("other".to_string()));
    assert!(!r.is_local);

    let stats = coordinator.handle_get_shard_stats(GetShardStats);
    assert_eq!(stats.node_count, 1);
    assert_eq!(stats.local_peer_id, local);

    coordinator.handle_topology_changed(TopologyChanged { peers: vec![] });
    let r = coordinator.handle_lookup_machine(LookupMachine { machine_id: "m1".to_string() });
    assert_eq!(r.owner_peer, None);
    assert!(!r.is_local);
}
