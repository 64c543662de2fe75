use libp2p::identity::Keypair;
use libp2p::PeerId;
use neolaas::api::p2p_stats_response;
use neolaas::crds::mac_address_string::{deserialize, serialize, MacAddr};
use neolaas::discovery::controller::{keepalive_round, KeepAliveReply, MaintenanceEvent};
use neolaas::discovery::endpoints::{
    checked_endpoints, plan_endpoint, resolved_endpoints, EndpointError, EndpointPlan, ResolvedIp,
};
use neolaas::discovery::registry::{PeerRegistry, RegistryError};
use neolaas::health::{ping_message, ping_outcome, ping_step, PingLoop, PingOutcome, PingStep, StatsReply};
use neolaas::machines::manager::{listing_entries, EtcdEventType, EtcdMachineEvent};
use neolaas::peers::peer_info_for;

fn peer() -> String {
    PeerId::from(Keypair::generate_ed25519().public()).to_base58()
}

#[test]
fn mac_round_trip() {
    let mac = MacAddr([0xde, 0xad, 0xbe, 0xef, 0x00, 0x7f]);
    let text = serialize(&mac);
    assert_eq!(text, "DE:AD:BE:EF:00:7F");
    assert_eq!(deserialize(&text).unwrap().0, mac.0);
}

#[test]
fn peer_info_from_multiaddr() {
    let info = peer_info_for(&"12D3KooWpeer".to_string(), "/ip4/10.0.0.7/tcp/9000").unwrap();
    assert_eq!(info.pod_name, "peer-12D3KooWpeer");
    assert_eq!(info.address, "10.0.0.7");
    assert_eq!(info.port, 9000);
    let info = peer_info_for(&"p".to_string(), "/dns4/example.com/tcp/1/ip4/192.168.255.1/tcp/2").unwrap();
    assert_eq!(info.address, "192.168.255.1");
    assert_eq!(info.port, 1);
    assert!(peer_info_for(&"p".to_string(), "/ip4/10.0.0.7/udp/9000").is_none());
    assert!(peer_info_for(&"p".to_string(), "/dns4/example.com/tcp/9000").is_none());
    assert!(peer_info_for(&"p".to_string(), "not a multiaddr").is_none());
}

#[test]
fn registry_registration_and_listing() {
    let local = peer();
    let other = peer();
    let reg = PeerRegistry::new(local.clone(), "/ip4/10.0.0.1/tcp/9000".to_string());
    let (key, value) = reg.registration();
    assert_eq!(key, format!("/neolaas/peers/{local}"));
    assert_eq!(value, "/ip4/10.0.0.1/tcp/9000");

    let peers = reg
        .discover_peers(vec![
            (Some(format!("/neolaas/peers/{local}")), Some("/ip4/10.0.0.1/tcp/9000".to_string())),
            (Some(format!("/neolaas/peers/{other}")), Some("/ip4/10.0.0.2/tcp/9000".to_string())),
            (Some("/neolaas/peers/garbage".to_string()), Some("/ip4/10.0.0.3/tcp/9000".to_string())),
            (Some(format!("/neolaas/peers/{}", peer())), Some("bad addr".to_string())),
        ])
        .unwrap();
    assert_eq!(peers, vec![(other.clone(), "/ip4/10.0.0.2/tcp/9000".to_string())]);

    let failed = reg.discover_peers(vec![
        (Some(format!("/neolaas/peers/{other}")), Some("/ip4/10.0.0.2/tcp/9000".to_string())),
        (Some(format!("/neolaas/peers/{}", peer())), None),
    ]);
    assert_eq!(failed, Err(RegistryError::Unreadable));
}

#[test]
fn endpoint_planning() {
    match plan_endpoint("http://etcd.infra.svc.cluster.local:2379").ok().unwrap() {
        EndpointPlan::Host { host, scheme, port } => {
            assert_eq!(host, "etcd.infra.svc.cluster.local");
            assert_eq!(scheme, "http");
            assert_eq!(port, 2379);
        }
        _ => panic!("expected a host"),
    }
    match plan_endpoint("etcd:4001").ok().unwrap() {
        EndpointPlan::Host { host, scheme, port } => {
            assert_eq!(host, "etcd");
            assert_eq!(scheme, "http");
            assert_eq!(port, 4001);
        }
        _ => panic!("expected a host"),
    }
    assert!(matches!(plan_endpoint("https://10.0.0.5").ok().unwrap(), EndpointPlan::AsIs(ref e) if e == "https://10.0.0.5"));
    assert!(matches!(plan_endpoint("10.1.2.3:2379").ok().unwrap(), EndpointPlan::AsIs(ref e) if e == "10.1.2.3:2379"));
    assert!(matches!(plan_endpoint("/just/a/path").ok().unwrap(), EndpointPlan::AsIs(ref e) if e == "/just/a/path"));
    assert!(matches!(plan_endpoint("http://bad host"), Err(EndpointError::InvalidUri(ref e)) if e == "http://bad host"));
}

#[test]
fn endpoint_resolution() {
    let v = resolved_endpoints(
        "http://etcd:2379",
        "http",
        2379,
        Some(vec![
            ResolvedIp { text: "10.0.0.5".to_string(), is_v6: false },
            ResolvedIp { text: "fd00::5".to_string(), is_v6: true },
        ]),
    );
    assert_eq!(v, vec!["http://10.0.0.5:2379".to_string(), "http://[fd00::5]:2379".to_string()]);
    assert_eq!(resolved_endpoints("http://etcd:2379", "http", 2379, None), vec!["http://etcd:2379".to_string()]);
    assert!(resolved_endpoints("http://etcd:2379", "http", 2379, Some(vec![])).is_empty());
    assert!(matches!(checked_endpoints(vec![]), Err(EndpointError::NoValidEndpoints)));
    assert_eq!(checked_endpoints(vec!["a".to_string()]).ok().unwrap(), vec!["a".to_string()]);
}

#[test]
fn ping_decisions() {
    let local = "me".to_string();
    assert_eq!(ping_step(&None, &local, true, false), PingStep::Ignore);
    assert_eq!(ping_step(&Some("me".to_string()), &local, true, false), PingStep::Ignore);
    assert_eq!(ping_step(&Some("you".to_string()), &local, false, false), PingStep::Skip);
    assert_eq!(ping_step(&Some("you".to_string()), &local, true, true), PingStep::Skip);
    assert_eq!(ping_step(&Some("you".to_string()), &local, true, false), PingStep::Send);
    assert_eq!(ping_outcome(true, false), PingOutcome::Success);
    assert_eq!(ping_outcome(false, true), PingOutcome::Failure);
    assert_eq!(ping_outcome(false, false), PingOutcome::PeerGone);
    let m = ping_message(&"node-a".to_string(), &local, 12, 1700);
    assert_eq!(m.from_node, "node-a");
    assert_eq!(m.from_peer, "me");
    assert_eq!(m.sequence, 12);
    assert_eq!(m.timestamp, 1700);
}

#[test]
fn p2p_stats_rows_skip_self() {
    let r = p2p_stats_response(
        &"node-a".to_string(),
        &"me".to_string(),
        StatsReply { node_id: "node-a".to_string(), pings_received: 5, pongs_sent: 5 },
        vec![
            (Some("me".to_string()), Some(StatsReply { node_id: "node-a".to_string(), pings_received: 5, pongs_sent: 5 })),
            (Some("you".to_string()), Some(StatsReply { node_id: "node-b".to_string(), pings_received: 2, pongs_sent: 1 })),
            (None, None),
        ],
    );
    assert_eq!(r.node_id, "node-a");
    assert_eq!(r.peer_id, "me");
    assert_eq!(r.local_stats.pings_received, 5);
    assert_eq!(r.remote_peers.len(), 2);
    assert_eq!(r.remote_peers[0].peer_id, "you");
    assert_eq!(r.remote_peers[0].node_id, "node-b");
    assert!(r.remote_peers[0].reachable);
    assert_eq!(r.remote_peers[1].peer_id, "unknown");
    assert!(!r.remote_peers[1].reachable);
}

#[test]
fn machine_watch_events() {
    let e = EtcdMachineEvent::from_watch("/neolaas/machines/m1", EtcdEventType::Put, Some("{}".to_string()));
    assert_eq!(e.machine_id, "m1");
    assert_eq!(e.event_type, EtcdEventType::Put);
    assert_eq!(e.spec_json, Some("{}".to_string()));
    let e = EtcdMachineEvent::from_watch("/neolaas/machines/m1", EtcdEventType::Delete, Some("{}".to_string()));
    assert_eq!(e.spec_json, None);
    let e = EtcdMachineEvent::from_watch("odd-key", EtcdEventType::Put, None);
    assert_eq!(e.machine_id, "odd-key");

    let entries = listing_entries(vec![
        (Some("/neolaas/machines/a".to_string()), Some("sa".to_string())),
        (Some("b".to_string()), Some("sb".to_string())),
    ])
    .unwrap();
    assert_eq!(entries, vec![("a".to_string(), "sa".to_string()), ("b".to_string(), "sb".to_string())]);
    assert!(listing_entries(vec![(Some("/neolaas/machines/a".to_string()), None)]).is_none());
}

#[test]
fn keepalive_verdicts() {
    assert_eq!(keepalive_round(true, KeepAliveReply::Renewed(15)), None);
    assert_eq!(keepalive_round(true, KeepAliveReply::StreamClosed), Some(MaintenanceEvent::KeepAliveFailed));
    assert_eq!(keepalive_round(true, KeepAliveReply::Failed), Some(MaintenanceEvent::KeepAliveFailed));
    assert_eq!(keepalive_round(false, KeepAliveReply::Renewed(15)), Some(MaintenanceEvent::KeepAliveFailed));
}

#[test]
fn ping_rounds_number_their_pings() {
    let mut rounds = PingLoop::new();
    assert_eq!(rounds.sequence(), 0);
    assert_eq!(rounds.next_round(), 1);
    assert_eq!(rounds.next_round(), 2);
    let me = "me".to_string();
    let node = "node-a".to_string();
    let ping = rounds.ping_for(&node, &me, &Some("you".to_string()), true, false, 99).unwrap();
    assert_eq!(ping.sequence, 2);
    assert_eq!(ping.from_node, "node-a");
    assert_eq!(ping.from_peer, "me");
    assert_eq!(ping.timestamp, 99);
    assert!(rounds.ping_for(&node, &me, &Some("me".to_string()), true, false, 99).is_none());
    assert!(rounds.ping_for(&node, &me, &Some("you".to_string()), false, false, 99).is_none());
    assert!(rounds.ping_for(&node, &me, &Some("you".to_string()), true, true, 99).is_none());
    assert!(rounds.ping_for(&node, &me, &None, true, false, 99).is_none());
}
