use libp2p::identity::Keypair;
use libp2p::PeerId;
use neolaas::discovery::controller::{
    DiscoveryController, DiscoveryState, MaintenanceAction, MaintenanceEvent, MaintenanceOutcome,
};
use neolaas::discovery::etcd::EtcdOperations;
use neolaas::discovery::phases::{
    DiscoveryCommand, DiscoveryOutput, DiscoveryPhases, PeerRecord, WatchEvent, WatchEventKind, WatchFailure,
    WatchResponse,
};

fn peer() -> String {
    PeerId::from(Keypair::generate_ed25519().public()).to_base58()
}

fn ops() -> EtcdOperations {
    EtcdOperations { cluster_id: "lab".to_string() }
}

fn record(key: &str, addr: &str) -> PeerRecord {
    PeerRecord { key: Some(key.to_string()), value: Some(format!("{{\"multiaddr\":\"{addr}\"}}")), addr: Some(addr.to_string()) }
}

#[test]
fn etcd_keys() {
    let o = ops();
    assert_eq!(o.peers_prefix(), "/kameo/v1/clusters/lab/peers/");
    assert_eq!(o.peer_key(&"12D3Koo".to_string()), "/kameo/v1/clusters/lab/peers/12D3Koo");
}

#[test]
fn registration_record() {
    let local = peer();
    let phases = DiscoveryPhases::new(ops(), local.clone(), "/ip4/10.0.0.1/tcp/9000".to_string(), true);
    let (key, meta) = phases.registration();
    assert_eq!(key, format!("/kameo/v1/clusters/lab/peers/{local}"));
    assert_eq!(meta.multiaddr, "/ip4/10.0.0.1/tcp/9000");
    assert!(meta.meta.is_empty());
    assert_eq!(meta.shard, 0);
    assert_eq!(phases.local_peer_id(), &local);
    assert_eq!(phases.local_addr(), "/ip4/10.0.0.1/tcp/9000");
    assert_eq!(phases.etcd_ops().cluster_id, "lab");
}

#[test]
fn converge_adds_other_peers_only() {
    let local = peer();
    let other = peer();
    let mut phases = DiscoveryPhases::new(ops(), local.clone(), "/ip4/10.0.0.1/tcp/9000".to_string(), true);
    let records = vec![
        record(&format!("/kameo/v1/clusters/lab/peers/{local}"), "/ip4/10.0.0.1/tcp/9000"),
        record(&format!("/kameo/v1/clusters/lab/peers/{other}"), "/ip4/10.0.0.2/tcp/9000"),
        record("/kameo/v1/clusters/lab/peers/not-a-peer-id", "/ip4/10.0.0.3/tcp/9000"),
        record(&format!("/kameo/v1/clusters/other/peers/{}", peer()), "/ip4/10.0.0.4/tcp/9000"),
    ];
    let outcome = phases.converge(records);
    assert!(!outcome.failed);
    assert_eq!(outcome.added, vec![(other.clone(), "/ip4/10.0.0.2/tcp/9000".to_string())]);
    assert_eq!(outcome.topology, Some(vec![local, other]));
}

#[test]
fn converge_stops_at_unreadable_record() {
    let local = peer();
    let other = peer();
    let mut phases = DiscoveryPhases::new(ops(), local.clone(), "/ip4/10.0.0.1/tcp/9000".to_string(), true);
    let records = vec![
        PeerRecord { key: None, value: Some("{}".to_string()), addr: None },
        record(&format!("/kameo/v1/clusters/lab/peers/{other}"), "/ip4/10.0.0.2/tcp/9000"),
    ];
    let outcome = phases.converge(records);
    assert!(outcome.failed);
    assert!(outcome.added.is_empty());
    assert_eq!(outcome.topology, None);
}

#[test]
fn converge_skips_bad_multiaddr_and_silent_topology() {
    let local = peer();
    let other = peer();
    let mut phases = DiscoveryPhases::new(ops(), local, "/ip4/10.0.0.1/tcp/9000".to_string(), false);
    let outcome = phases.converge(vec![record(&format!("/kameo/v1/clusters/lab/peers/{other}"), "garbage")]);
    assert!(!outcome.failed);
    assert!(outcome.added.is_empty());
    assert_eq!(outcome.topology, None);
}

#[test]
fn watch_put_then_delete() {
    let local = peer();
    let other = peer();
    let key = format!("/kameo/v1/clusters/lab/peers/{other}");
    let mut phases = DiscoveryPhases::new(ops(), local.clone(), "/ip4/10.0.0.1/tcp/9000".to_string(), true);

    let (outputs, result) = phases.process_watch_response(WatchResponse {
        canceled: false,
        events: vec![WatchEvent { kind: WatchEventKind::Put, kv: Some(record(&key, "/ip4/10.0.0.2/tcp/9000")) }],
    });
    assert!(result.is_ok());
    assert_eq!(outputs.len(), 2);
    match &outputs[0] {
        DiscoveryOutput::Command(DiscoveryCommand::AddPeer { peer_id, addr }) => {
            assert_eq!(peer_id, &other);
            assert_eq!(addr, "/ip4/10.0.0.2/tcp/9000");
        }
        _ => panic!("expected AddPeer"),
    }
    match &outputs[1] {
        DiscoveryOutput::Topology(peers) => assert_eq!(peers, &vec![local.clone(), other.clone()]),
        _ => panic!("expected a topology"),
    }

    let (outputs, result) = phases.process_watch_response(WatchResponse {
        canceled: false,
        events: vec![WatchEvent {
            kind: WatchEventKind::Delete,
            kv: Some(PeerRecord { key: Some(key.clone()), value: Some(String::new()), addr: None }),
        }],
    });
    assert!(result.is_ok());
    match &outputs[0] {
        DiscoveryOutput::Command(DiscoveryCommand::RemovePeer { peer_id }) => assert_eq!(peer_id, &other),
        _ => panic!("expected RemovePeer"),
    }
    match &outputs[1] {
        DiscoveryOutput::Topology(peers) => assert_eq!(peers, &vec![local.clone()]),
        _ => panic!("expected a topology"),
    }
}

#[test]
fn watch_ignores_own_key_and_fails_on_cancel_or_unreadable() {
    let local = peer();
    let mut phases = DiscoveryPhases::new(ops(), local.clone(), "/ip4/10.0.0.1/tcp/9000".to_string(), true);
    let own = format!("/kameo/v1/clusters/lab/peers/{local}");
    let (outputs, result) = phases.process_watch_response(WatchResponse {
        canceled: false,
        events: vec![WatchEvent { kind: WatchEventKind::Put, kv: Some(record(&own, "/ip4/10.0.0.1/tcp/9000")) }],
    });
    assert!(result.is_ok());
    assert!(outputs.is_empty());

    let (outputs, result) = phases.process_watch_response(WatchResponse { canceled: true, events: vec![] });
    assert!(outputs.is_empty());
    assert_eq!(result, Err(WatchFailure::Canceled));

    let (outputs, result) = phases.process_watch_response(WatchResponse {
        canceled: false,
        events: vec![WatchEvent { kind: WatchEventKind::Put, kv: Some(PeerRecord { key: Some(own), value: None, addr: None }) }],
    });
    assert!(outputs.is_empty());
    assert_eq!(result, Err(WatchFailure::Unreadable));
}

#[test]
fn controller_moves_forward_and_shuts_down() {
    let phases = DiscoveryPhases::new(ops(), peer(), "/ip4/10.0.0.1/tcp/9000".to_string(), false);
    let mut c = DiscoveryController::new(phases);
    assert_eq!(c.state(), DiscoveryState::Initialization);
    assert_eq!(c.lease_id(), None);
    assert!(c.advance());
    assert_eq!(c.state(), DiscoveryState::Registration);
    c.record_lease(42);
    assert!(c.advance());
    assert_eq!(c.state(), DiscoveryState::Convergence);
    assert!(c.advance());
    assert_eq!(c.state(), DiscoveryState::Maintenance);
    assert!(!c.advance());
    assert_eq!(c.state(), DiscoveryState::Maintenance);
    assert_eq!(c.on_maintenance_event(MaintenanceEvent::ExternalShutdown), MaintenanceAction::ShutdownAndStop);
    assert_eq!(c.on_maintenance_event(MaintenanceEvent::KeepAliveFailed), MaintenanceAction::ShutdownAndFail);
    assert_eq!(c.on_maintenance_event(MaintenanceEvent::WatchFailed), MaintenanceAction::ReconnectWatch);
    let plan = c.begin_shutdown();
    assert_eq!(plan.revoke_lease, Some(42));
    assert_eq!(c.state(), DiscoveryState::Terminating);
    assert!(!c.advance());
}

#[test]
fn controller_stops_at_a_failed_phase() {
    let phases = DiscoveryPhases::new(ops(), peer(), "/ip4/10.0.0.1/tcp/9000".to_string(), false);
    let mut c = DiscoveryController::new(phases);
    assert!(c.finish_phase(true));
    assert_eq!(c.state(), DiscoveryState::Registration);
    assert!(!c.finish_phase(false));
    assert_eq!(c.state(), DiscoveryState::Registration);
    assert!(c.finish_phase(true));
    assert!(c.finish_phase(true));
    assert_eq!(c.state(), DiscoveryState::Maintenance);
    assert!(!c.finish_phase(true));
}

#[test]
fn deleting_another_peer_keeps_the_local_peer_known() {
    let local = peer();
    let other = peer();
    let key = format!("/kameo/v1/clusters/lab/peers/{other}");
    let mut phases = DiscoveryPhases::new(ops(), local.clone(), "/ip4/10.0.0.1/tcp/9000".to_string(), true);
    phases.process_watch_response(WatchResponse {
        canceled: false,
        events: vec![WatchEvent { kind: WatchEventKind::Put, kv: Some(record(&key, "/ip4/10.0.0.2/tcp/9000")) }],
    });
    let (outputs, _) = phases.process_watch_response(WatchResponse {
        canceled: false,
        events: vec![WatchEvent {
            kind: WatchEventKind::Delete,
            kv: Some(PeerRecord { key: Some(key), value: Some(String::new()), addr: None }),
        }],
    });
    match &outputs[1] {
        DiscoveryOutput::Topology(peers) => assert_eq!(peers, &vec![local]),
        _ => panic!("expected a topology"),
    }
}

#[test]
fn maintenance_outcomes() {
    let phases = DiscoveryPhases::new(ops(), peer(), "/ip4/10.0.0.1/tcp/9000".to_string(), false);
    let mut c = DiscoveryController::new(phases);
    c.finish_phase(true);
    c.record_lease(7);
    c.finish_phase(true);
    c.finish_phase(true);
    assert!(matches!(c.handle_maintenance_event(MaintenanceEvent::WatchFailed), MaintenanceOutcome::Reconnect));
    assert_eq!(c.state(), DiscoveryState::Maintenance);
    match c.handle_maintenance_event(MaintenanceEvent::KeepAliveFailed) {
        MaintenanceOutcome::Failed(plan) => assert_eq!(plan.revoke_lease, Some(7)),
        _ => panic!("expected a failed shutdown"),
    }
    assert_eq!(c.state(), DiscoveryState::Terminating);

    let phases = DiscoveryPhases::new(ops(), peer(), "/ip4/10.0.0.1/tcp/9000".to_string(), false);
    let mut c = DiscoveryController::new(phases);
    match c.handle_maintenance_event(MaintenanceEvent::ExternalShutdown) {
        MaintenanceOutcome::Stopped(plan) => assert_eq!(plan.revoke_lease, None),
        _ => panic!("expected a stop"),
    }
}
