use neolaas::api::{broadcast_outcome, provisioned_message, remote_peer_stats, HostStatus, MachineInfo, MachinesResponse};
use neolaas::clock::Timestamp;
use neolaas::config::NetworkConfig;
use neolaas::health::{BroadcastMessage, GetStatsMessage, HealthActor, PingMessage, StatsReply};
use neolaas::inventory::{
    error_policy, machine_id_of_key, machine_key, reconcile_plan, resource_lock_key, switch_key, vlan_key,
    FinalizerEvent, InventoryKind, MachineController, ReconcileAction, SwitchController, SyncStep, VlanController,
};
use neolaas::machines::messages::{MachineState, MachineStatus};
use neolaas::models::{Booking, BookingStatus, HostAllocation, ProvisionState};
use neolaas::peers::{DiscoveryConfigError, KubernetesPeerDiscovery, PeerInfo};
use neolaas::text::{decimal, parse_u16, sort_texts, split_commas, strip_prefix, text_eq};

#[test]
fn text_helpers() {
    assert_eq!(decimal(0), "0");
    assert_eq!(decimal(9000), "9000");
    assert_eq!(decimal(u64::MAX), "18446744073709551615");
    assert_eq!(parse_u16("9000"), Some(9000));
    assert_eq!(parse_u16("+65535"), Some(65535));
    assert_eq!(parse_u16("65536"), None);
    assert_eq!(parse_u16(""), None);
    assert_eq!(parse_u16("12a"), None);
    assert_eq!(split_commas("a,b,,c"), vec!["a", "b", "", "c"]);
    assert_eq!(split_commas(""), vec![""]);
    assert_eq!(strip_prefix("/neolaas/x", "/neolaas/"), Some("x".to_string()));
    assert_eq!(strip_prefix("/other/x", "/neolaas/"), None);
    assert!(text_eq("abc", "abc"));
    assert!(!text_eq("abc", "abd"));
    assert_eq!(
        sort_texts(vec!["b".to_string(), "ab".to_string(), "a".to_string()]),
        vec!["a".to_string(), "ab".to_string(), "b".to_string()]
    );
}

#[test]
fn config_defaults_and_env() {
    let d = NetworkConfig::default();
    assert_eq!(d.p2p_port, 9000);
    assert_eq!(d.cluster_id, "default");
    assert_eq!(d.etcd_endpoints, vec!["http://etcd.infra.svc.cluster.local:2379".to_string()]);
    assert_eq!(d.pod_ip, "127.0.0.1");
    assert_eq!(d.lease_ttl, 15);
    assert_eq!(d.kademlia_parallelism, 10);

    let c = NetworkConfig::default().with_env_values(
        Some("7000".to_string()),
        Some("lab".to_string()),
        Some("http://a:2379,http://b:2379".to_string()),
        Some("10.1.2.3".to_string()),
    );
    assert_eq!(c.p2p_port, 7000);
    assert_eq!(c.cluster_id, "lab");
    assert_eq!(c.etcd_endpoints, vec!["http://a:2379".to_string(), "http://b:2379".to_string()]);
    assert_eq!(c.pod_ip, "10.1.2.3");

    let c = NetworkConfig::default().with_env_values(Some("not-a-port".to_string()), None, None, None);
    assert_eq!(c.p2p_port, 9000);
    assert_eq!(c.cluster_id, "default");
}

#[test]
fn peer_discovery_from_env_and_addresses() {
    let d = KubernetesPeerDiscovery::from_env_values(None, Some("infra".to_string()), None, None, Some("10.0.0.1".to_string()))
        .ok()
        .unwrap();
    assert_eq!(d.lookup_target(), "neolaas-headless.infra.svc.cluster.local:0");
    let peers = d.peers_from_addresses(vec!["10.0.0.1".to_string(), "10.0.0.2".to_string(), "10.0.0.3".to_string()]);
    assert_eq!(peers.len(), 2);
    assert_eq!(peers[0].address, "10.0.0.2");
    assert_eq!(peers[0].pod_name, "pod-10.0.0.2");
    assert_eq!(peers[0].port, 9000);
    assert_eq!(peers[1].multiaddr(), "/ip4/10.0.0.3/tcp/9000");

    let d = KubernetesPeerDiscovery::from_env_values(Some("svc.example".to_string()), None, None, Some("7001".to_string()), None)
        .ok()
        .unwrap();
    assert_eq!(d.lookup_target(), "svc.example:0");
    assert_eq!(d.peers_from_addresses(vec!["10.0.0.1".to_string()])[0].port, 7001);

    let e = KubernetesPeerDiscovery::from_env_values(None, None, None, Some("x".to_string()), None);
    assert!(matches!(e, Err(DiscoveryConfigError::InvalidPort)));

    let d = KubernetesPeerDiscovery::new("dns".to_string(), 9100, None);
    assert_eq!(d.peers_from_addresses(vec!["1.2.3.4".to_string()]).len(), 1);
    let p = PeerInfo { pod_name: "p".to_string(), address: "1.2.3.4".to_string(), port: 65535 };
    assert_eq!(p.multiaddr(), "/ip4/1.2.3.4/tcp/65535");
}

fn allocation(expires: Timestamp, state: ProvisionState) -> HostAllocation {
    HostAllocation {
        id: 0x67e5_5044_10b1_426f_9247_bb68_0e5f_e0c8,
        host_id: "host-1".to_string(),
        booking_id: 7,
        owner: "alice".to_string(),
        allocated_at: Timestamp { secs: 100, nanos: 0 },
        expires_at: expires,
        provision_state: state,
        metadata: "{}".to_string(),
    }
}

#[test]
fn allocation_expiry_and_key() {
    let a = allocation(Timestamp { secs: 200, nanos: 5 }, ProvisionState::Ready);
    assert!(!a.is_expired_at(Timestamp { secs: 200, nanos: 5 }));
    assert!(a.is_expired_at(Timestamp { secs: 200, nanos: 6 }));
    assert!(a.is_active_at(Timestamp { secs: 150, nanos: 0 }));
    assert!(!a.is_active_at(Timestamp { secs: 201, nanos: 0 }));
    assert!(a.is_expired());
    assert!(!a.is_active());
    let released = allocation(Timestamp { secs: i64::MAX, nanos: 0 }, ProvisionState::Released);
    assert!(!released.is_active_at(Timestamp { secs: 0, nanos: 0 }));
    assert!(!released.is_expired());
    assert_eq!(a.key(), "/neolaas/host_allocations/67e55044-10b1-426f-9247-bb680e5fe0c8");
}

#[test]
fn booking_activity() {
    let b = Booking {
        id: 1,
        owner: "bob".to_string(),
        start_time: Timestamp { secs: 100, nanos: 0 },
        end_time: Timestamp { secs: 200, nanos: 0 },
        host_allocations: vec![],
        vlan_allocations: vec![],
        status: BookingStatus::Active,
        metadata: "{}".to_string(),
    };
    assert!(!b.is_active_at(Timestamp { secs: 99, nanos: 999 }));
    assert!(b.is_active_at(Timestamp { secs: 100, nanos: 0 }));
    assert!(!b.is_active_at(Timestamp { secs: 200, nanos: 0 }));
    assert!(b.is_expired_at(Timestamp { secs: 200, nanos: 0 }));
    assert!(!b.is_expired_at(Timestamp { secs: 199, nanos: 0 }));
    assert!(b.is_expired());
    assert!(!b.is_active());
    let cancelled = Booking { status: BookingStatus::Cancelled, ..b };
    assert!(!cancelled.is_active_at(Timestamp { secs: 150, nanos: 0 }));
}

#[test]
fn inventory_keys_and_reconcile() {
    assert_eq!(machine_key("m1"), "/neolaas/machines/m1");
    assert_eq!(switch_key("tor-a1"), "/neolaas/switches/tor-a1");
    assert_eq!(vlan_key("v100"), "/neolaas/vlans/v100");
    assert_eq!(machine_id_of_key("/neolaas/machines/m7"), "m7");
    assert_eq!(machine_id_of_key("m7"), "m7");
    assert_eq!(MachineController::kind(), InventoryKind::Machine);
    assert_eq!(SwitchController::kind(), InventoryKind::Switch);
    assert_eq!(VlanController::kind(), InventoryKind::Vlan);
    assert_eq!(InventoryKind::Vlan.finalizer(), "neolaas.io/vlan-finalizer");
    assert_eq!(InventoryKind::Switch.prefix(), "/neolaas/switches/");
    let (step, action) = reconcile_plan(InventoryKind::Machine, "m1", FinalizerEvent::Apply);
    assert!(matches!(step, SyncStep::Put { ref key } if key == "/neolaas/machines/m1"));
    assert_eq!(action, ReconcileAction::Requeue { secs: 300 });
    let (step, action) = reconcile_plan(InventoryKind::Switch, "s1", FinalizerEvent::Cleanup);
    assert!(matches!(step, SyncStep::Delete { ref key } if key == "/neolaas/switches/s1"));
    assert_eq!(action, ReconcileAction::AwaitChange);
    assert_eq!(error_policy(), ReconcileAction::Requeue { secs: 60 });
    assert_eq!(resource_lock_key("machine", "m1"), "/neolaas/resource_locks/machine/m1");
}

#[test]
fn health_actor_counts() {
    let mut h = HealthActor::new("node-a".to_string());
    assert_eq!(h.get_stats(), (0, 0));
    let pong = h.handle_ping(PingMessage { from_node: "node-b".to_string(), from_peer: "p".to_string(), sequence: 9, timestamp: 0 });
    assert_eq!(pong.from_node, "node-a");
    assert_eq!(pong.received_sequence, 9);
    assert_eq!(h.get_stats(), (1, 1));
    let ack = h.handle_broadcast(BroadcastMessage {
        from_node: "node-b".to_string(),
        from_peer: "p".to_string(),
        content: "hi".to_string(),
        timestamp: 0,
    });
    assert!(ack.success);
    assert_eq!(ack.from_node, "node-a");
    let stats = h.handle_get_stats(GetStatsMessage);
    assert_eq!(stats.node_id, "node-a");
    assert_eq!(stats.pings_received, 1);
    assert_eq!(stats.pongs_sent, 1);
}

#[test]
fn api_responses() {
    let status = MachineStatus {
        machine_id: "m1".to_string(),
        state: MachineState::Booked,
        admin_state: "available".to_string(),
        cluster: "default".to_string(),
        current_booking: Some("b1".to_string()),
        last_activity: Some(5),
    };
    let info = MachineInfo::from_status(status);
    assert_eq!(info.state, "booked");
    assert_eq!(info.current_booking, Some("b1".to_string()));
    let resp = MachinesResponse::from_statuses(vec![
        MachineStatus {
            machine_id: "a".to_string(),
            state: MachineState::Idle,
            admin_state: "available".to_string(),
            cluster: "c".to_string(),
            current_booking: None,
            last_activity: None,
        },
        MachineStatus {
            machine_id: "b".to_string(),
            state: MachineState::Error,
            admin_state: "maintenance".to_string(),
            cluster: "c".to_string(),
            current_booking: None,
            last_activity: Some(1),
        },
    ]);
    assert_eq!(resp.machines.len(), 2);
    assert_eq!(resp.machines[0].machine_id, "a");
    assert_eq!(resp.machines[1].state, "error");

    let r = broadcast_outcome("hello", vec![Some(true), Some(false), None, Some(true)]);
    assert_eq!(r.message, "Broadcast sent: 'hello'");
    assert_eq!(r.peers_reached, 2);
    assert_eq!(r.peers_failed, 2);

    let row = remote_peer_stats(None, None);
    assert_eq!(row.peer_id, "unknown");
    assert_eq!(row.node_id, "unknown");
    assert!(!row.reachable);
    let row = remote_peer_stats(
        Some("peer-1".to_string()),
        Some(StatsReply { node_id: "node-b".to_string(), pings_received: 3, pongs_sent: 4 }),
    );
    assert!(row.reachable);
    assert_eq!(row.peer_id, "peer-1");
    assert_eq!(row.pings_received, 3);
    assert_eq!(row.pongs_sent, 4);

    let a = allocation(Timestamp { secs: 200, nanos: 0 }, ProvisionState::Provisioning);
    let hs = HostStatus::of(&"host-1".to_string(), &a);
    assert_eq!(hs.host_id, "host-1");
    assert_eq!(hs.booking_id, 7);
    assert_eq!(hs.provision_state, ProvisionState::Provisioning);
    assert_eq!(provisioned_message("host-1", "ubuntu"), "Host host-1 provisioned with ubuntu");
}
