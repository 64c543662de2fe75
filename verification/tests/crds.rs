use neolaas::crds::mac_address_string::{deserialize, serialize, MacAddr, MacAddressError};
use neolaas::crds::machine::{default_cluster, AdminState, BmcProtocol, NetworkInterface, SwitchPortRef};
use neolaas::crds::switch::SwitchBackend;
use neolaas::crds::vlan::{VlanAdminState, VlanId};

#[test]
fn test_admin_state_bookable() {
    assert!(AdminState::Available.is_bookable());
    assert!(AdminState::Reserved.is_bookable());
    assert!(!AdminState::Maintenance.is_bookable());
    assert!(!AdminState::Decommissioned.is_bookable());
}

#[test]
fn test_network_interface_deserialize() {
    let json = r#"{
            "mac": "00:de:11:64:00:01",
            "switchPort": { "switch": "tor-a1", "port": "Ethernet1/1" },
            "pxe": true
        }"#;
    let value: serde_json::Value = serde_json::from_str(json).unwrap();
    let mac = deserialize(value["mac"].as_str().unwrap()).unwrap();
    let iface = NetworkInterface {
        mac,
        switch_port: SwitchPortRef {
            switch: value["switchPort"]["switch"].as_str().unwrap().to_string(),
            port: value["switchPort"]["port"].as_str().unwrap().to_string(),
        },
        pxe: value["pxe"].as_bool().unwrap(),
    };
    assert_eq!(serialize(&iface.mac), "00:DE:11:64:00:01");
    assert!(iface.pxe);
}

#[test]
fn test_network_interface_serialize() {
    let iface = NetworkInterface {
        mac: deserialize("00:de:11:64:00:01").unwrap(),
        switch_port: SwitchPortRef { switch: "tor-a1".to_string(), port: "Ethernet1/1".to_string() },
        pxe: true,
    };
    let mut port = serde_json::Map::new();
    port.insert("switch".to_string(), serde_json::Value::String(iface.switch_port.switch.clone()));
    port.insert("port".to_string(), serde_json::Value::String(iface.switch_port.port.clone()));
    let mut obj = serde_json::Map::new();
    obj.insert("mac".to_string(), serde_json::Value::String(serialize(&iface.mac)));
    obj.insert("switchPort".to_string(), serde_json::Value::Object(port));
    obj.insert("pxe".to_string(), serde_json::Value::Bool(iface.pxe));
    let json = serde_json::to_string(&serde_json::Value::Object(obj)).unwrap();
    assert!(json.contains("00:DE:11:64:00:01") || json.contains("00:de:11:64:00:01"));
}

#[test]
fn test_vlan_id_validation() {
    assert!(VlanId::new(1).is_ok());
    assert!(VlanId::new(4094).is_ok());
    assert!(VlanId::new(0).is_err());
    assert!(VlanId::new(4095).is_err());
}

#[test]
fn vlan_id_error_message_and_value() {
    assert_eq!(VlanId::new(0).unwrap_err(), "VLAN ID must be between 1 and 4094");
    let id = VlanId::new(100).unwrap();
    assert_eq!(id.get(), 100);
    assert_eq!(id.to_string(), "100");
    assert_eq!(u16::from(id), 100);
    assert!(VlanId::try_from(4095u16).is_err());
    assert_eq!(VlanId::try_from(7u16).unwrap().get(), 7);
}

#[test]
fn vlan_admin_state_allocatable() {
    assert!(VlanAdminState::Available.is_allocatable());
    assert!(!VlanAdminState::Reserved.is_allocatable());
    assert!(!VlanAdminState::Disabled.is_allocatable());
    assert_eq!(VlanAdminState::Disabled.as_str(), "disabled");
    assert_eq!(VlanAdminState::parse("reserved"), Some(VlanAdminState::Reserved));
    assert_eq!(VlanAdminState::parse("Reserved"), None);
}

#[test]
fn switch_backend_default_ports() {
    assert_eq!(SwitchBackend::Nxos.default_port(), 443);
    assert_eq!(SwitchBackend::Iosxe.default_port(), 443);
    assert_eq!(SwitchBackend::Ios.default_port(), 22);
    assert_eq!(SwitchBackend::Eos.default_port(), 443);
    assert_eq!(SwitchBackend::Junos.default_port(), 830);
    assert_eq!(SwitchBackend::Ssh.default_port(), 22);
}

#[test]
fn switch_backend_names_round_trip() {
    for b in [
        SwitchBackend::Nxos,
        SwitchBackend::Iosxe,
        SwitchBackend::Ios,
        SwitchBackend::Eos,
        SwitchBackend::Junos,
        SwitchBackend::Ssh,
    ] {
        assert_eq!(SwitchBackend::parse(b.as_str()), Some(b));
    }
    assert_eq!(SwitchBackend::parse("cumulus"), None);
    assert_eq!(SwitchBackend::default(), SwitchBackend::Nxos);
}

#[test]
fn admin_state_and_protocol_names() {
    assert_eq!(AdminState::Decommissioned.as_str(), "decommissioned");
    assert_eq!(AdminState::parse("maintenance"), Some(AdminState::Maintenance));
    assert_eq!(AdminState::parse("busy"), None);
    assert_eq!(AdminState::default(), AdminState::Available);
    assert_eq!(BmcProtocol::Idrac.as_str(), "idrac");
    assert_eq!(BmcProtocol::parse("ipmi"), Some(BmcProtocol::Ipmi));
    assert_eq!(BmcProtocol::default(), BmcProtocol::Redfish);
    assert_eq!(default_cluster(), "default");
}

#[test]
fn mac_address_formats() {
    assert_eq!(serialize(&MacAddr([0x0a, 0xbc, 0, 1, 0xff, 0x10])), "0A:BC:00:01:FF:10");
    let dashed = deserialize("0a-bc-00-01-ff-10").unwrap();
    assert_eq!(dashed.0, [0x0a, 0xbc, 0, 1, 0xff, 0x10]);
    assert!(matches!(deserialize("not a mac"), Err(MacAddressError::Invalid)));
    assert!(matches!(deserialize("00:de:11:64:00"), Err(MacAddressError::Invalid)));
}
