use neolaas::machines::actor::{MachineActor, MachineSpec};
use neolaas::machines::manager::{MachineActorManager, OwnershipLookup, PutAction};
use neolaas::machines::messages::{
    CheckOwnership, DeprovisionMachine, GetMachineStatus, MachineState, ProvisionConfig, ProvisionMachine,
};
use neolaas::sharding::messages::LookupResult;

fn spec(admin_state: &str) -> MachineSpec {
    MachineSpec { admin_state: admin_state.to_string(), cluster: "default".to_string(), reserved_for: None, labels: vec![] }
}

fn provision(booking: &str) -> ProvisionMachine {
    ProvisionMachine {
        booking_id: booking.to_string(),
        config: ProvisionConfig { image: "ubuntu-24.04".to_string(), vlan_id: Some(100), metadata: vec![] },
    }
}

#[test]
fn machine_state_names() {
    assert_eq!(MachineState::Initializing.as_str(), "initializing");
    assert_eq!(MachineState::Idle.to_string(), "idle");
    assert_eq!(MachineState::Booked.as_str(), "booked");
    assert_eq!(MachineState::Provisioning.as_str(), "provisioning");
    assert_eq!(MachineState::Deprovisioning.as_str(), "deprovisioning");
    assert_eq!(MachineState::Error.as_str(), "error");
}

#[test]
fn new_actor_reports_idle_after_first_status() {
    let mut actor = MachineActor::new("m1".to_string(), Ok(spec("available"))).ok().unwrap();
    assert_eq!(actor.machine_id(), "m1");
    let status = actor.handle_get_machine_status(GetMachineStatus);
    assert_eq!(status.machine_id, "m1");
    assert_eq!(status.state, MachineState::Idle);
    assert_eq!(status.admin_state, "available");
    assert_eq!(status.cluster, "default");
    assert_eq!(status.current_booking, None);
    assert!(status.last_activity.is_some());
}

#[test]
fn actor_creation_hands_back_parse_error() {
    let r = MachineActor::new("m1".to_string(), Err("bad json".to_string()));
    assert_eq!(r.err(), Some("bad json".to_string()));
    let r = MachineActor::with_node_id("m1".to_string(), Err("oops".to_string()), "node-a".to_string());
    assert_eq!(r.err(), Some("oops".to_string()));
}

#[test]
fn provision_then_deprovision_returns_to_idle() {
    let mut actor = MachineActor::with_spec("m1".to_string(), spec("available"));
    let r = actor.handle_provision_machine(provision("b1"));
    assert!(r.success);
    assert_eq!(r.error, None);
    let status = actor.handle_get_machine_status(GetMachineStatus);
    assert_eq!(status.state, MachineState::Booked);
    assert_eq!(status.current_booking, Some("b1".to_string()));

    let r = actor.handle_deprovision_machine(DeprovisionMachine { booking_id: "b1".to_string() });
    assert!(r.success);
    assert_eq!(r.error, None);
    let status = actor.handle_get_machine_status(GetMachineStatus);
    assert_eq!(status.state, MachineState::Idle);
    assert_eq!(status.current_booking, None);
}

#[test]
fn second_booking_is_refused() {
    let mut actor = MachineActor::with_spec_and_node_id("m1".to_string(), spec("reserved"), "node-a".to_string());
    assert!(actor.handle_provision_machine(provision("b1")).success);
    let r = actor.handle_provision_machine(provision("b2"));
    assert!(!r.success);
    assert_eq!(r.error, Some("Machine is not idle (current state: booked)".to_string()));
    let status = actor.handle_get_machine_status(GetMachineStatus);
    assert_eq!(status.current_booking, Some("b1".to_string()));
}

#[test]
fn maintenance_machine_cannot_be_booked() {
    let mut actor = MachineActor::with_spec("m1".to_string(), spec("maintenance"));
    let r = actor.handle_provision_machine(provision("b1"));
    assert!(!r.success);
    assert_eq!(r.error, Some("Machine admin state 'maintenance' does not allow booking".to_string()));
    assert_eq!(actor.handle_get_machine_status(GetMachineStatus).state, MachineState::Idle);
}

#[test]
fn deprovision_with_wrong_booking_is_refused() {
    let mut actor = MachineActor::with_spec("m1".to_string(), spec("available"));
    let r = actor.handle_deprovision_machine(DeprovisionMachine { booking_id: "b9".to_string() });
    assert!(!r.success);
    assert_eq!(r.error, Some("Booking ID mismatch: expected None, got b9".to_string()));

    assert!(actor.handle_provision_machine(provision("b1")).success);
    let r = actor.handle_deprovision_machine(DeprovisionMachine { booking_id: "b2".to_string() });
    assert!(!r.success);
    assert_eq!(r.error, Some("Booking ID mismatch: expected Some(\"b1\"), got b2".to_string()));
    assert_eq!(actor.handle_get_machine_status(GetMachineStatus).state, MachineState::Booked);
}

#[test]
fn spec_update_applies_or_reports() {
    let mut actor = MachineActor::with_spec("m1".to_string(), spec("available"));
    let ack = actor.handle_update_machine_spec(Ok(spec("maintenance")));
    assert!(ack.success);
    assert_eq!(ack.error, None);
    assert_eq!(actor.handle_get_machine_status(GetMachineStatus).admin_state, "maintenance");
    let ack = actor.handle_update_machine_spec(Err("expected value".to_string()));
    assert!(!ack.success);
    assert_eq!(ack.error, Some("expected value".to_string()));
    assert_eq!(actor.handle_get_machine_status(GetMachineStatus).admin_state, "maintenance");
}

#[test]
fn ownership_check_shuts_down_when_moved() {
    let actor = MachineActor::with_spec("m1".to_string(), spec("available"));
    assert!(actor.handle_check_ownership(CheckOwnership { is_still_local: false }).should_shutdown);
    assert!(!actor.handle_check_ownership(CheckOwnership { is_still_local: true }).should_shutdown);
}

fn lookup(id: &str, owner: &str, is_local: bool) -> Option<LookupResult> {
    Some(LookupResult { machine_id: id.to_string(), owner_peer: Some(owner.to_string()), is_local })
}

#[test]
fn manager_spawns_updates_and_stops() {
    let mut m = MachineActorManager::new("local".to_string(), "node-a".to_string());
    assert_eq!(m.actor_count(), 0);

    let a = m.handle_machine_put("m1".to_string(), "{}".to_string(), Ok(spec("available")), lookup("m1", "local", true));
    assert!(matches!(a, PutAction::SpawnActor { .. }));
    assert!(m.has_actor(&"m1".to_string()));
    assert_eq!(m.actor_count(), 1);

    let a = m.handle_machine_put("m1".to_string(), "{\"x\":1}".to_string(), Ok(spec("available")), lookup("m1", "local", true));
    match a {
        PutAction::UpdateActor { spec_json } => assert_eq!(spec_json, "{\"x\":1}"),
        _ => panic!("expected an update"),
    }

    let a = m.handle_machine_put("m1".to_string(), "{}".to_string(), Ok(spec("available")), lookup("m1", "peer-b", false));
    match a {
        PutAction::StopActor { new_owner } => assert_eq!(new_owner, "peer-b"),
        _ => panic!("expected a stop"),
    }
    assert!(!m.has_actor(&"m1".to_string()));

    let a = m.handle_machine_put("m2".to_string(), "{}".to_string(), Ok(spec("available")), None);
    assert!(matches!(a, PutAction::Nothing));
    assert_eq!(m.sync_result().total_machines, 2);
    assert_eq!(m.sync_result().local_actors, 0);
}

#[test]
fn manager_reports_unreadable_spec() {
    let mut m = MachineActorManager::new("local".to_string(), "node-a".to_string());
    let a = m.handle_machine_put("m1".to_string(), "nope".to_string(), Err("bad spec".to_string()), lookup("m1", "local", true));
    match a {
        PutAction::SpawnFailed { error } => assert_eq!(error, "bad spec"),
        _ => panic!("expected a failure"),
    }
    assert_eq!(m.actor_count(), 0);
}

#[test]
fn manager_delete_stops_actor() {
    let mut m = MachineActorManager::new("local".to_string(), "node-a".to_string());
    m.handle_machine_put("m1".to_string(), "{}".to_string(), Ok(spec("available")), lookup("m1", "local", true));
    assert!(m.handle_machine_delete(&"m1".to_string()));
    assert!(!m.has_actor(&"m1".to_string()));
    assert!(!m.handle_machine_delete(&"m1".to_string()));
    assert_eq!(m.sync_result().total_machines, 0);
}

#[test]
fn manager_rebalance_plan() {
    let mut m = MachineActorManager::new("local".to_string(), "node-a".to_string());
    m.handle_machine_put("m1".to_string(), "s1".to_string(), Ok(spec("available")), lookup("m1", "local", true));
    m.handle_machine_put("m2".to_string(), "s2".to_string(), Ok(spec("available")), lookup("m2", "peer-b", false));
    let plan = m.rebalance_plan(vec![
        OwnershipLookup { machine_id: "m1".to_string(), is_local: false },
        OwnershipLookup { machine_id: "m2".to_string(), is_local: true },
        OwnershipLookup { machine_id: "m3".to_string(), is_local: true },
    ]);
    assert_eq!(plan.to_stop, vec!["m1".to_string()]);
    assert_eq!(plan.to_spawn, vec![("m2".to_string(), "s2".to_string())]);
}

#[test]
fn manager_spawn_and_stop_directly() {
    let mut m = MachineActorManager::new("local".to_string(), "node-a".to_string());
    // Not cached yet: nothing is spawned.
    assert!(matches!(m.spawn_actor(&"m1".to_string(), Ok(spec("available"))), Ok(None)));
    m.handle_machine_put("m1".to_string(), "s1".to_string(), Ok(spec("available")), None);
    let spawned = m.spawn_actor(&"m1".to_string(), Ok(spec("available")));
    assert!(matches!(spawned, Ok(Some(_))));
    assert!(matches!(m.spawn_actor(&"m1".to_string(), Ok(spec("available"))), Ok(None)));
    assert!(m.stop_actor(&"m1".to_string()));
    assert!(!m.stop_actor(&"m1".to_string()));
}
