//! Custom resources of the hardware inventory: machines, switches and VLANs.
pub mod mac_address_string;
pub mod machine;
pub mod switch;
pub mod vlan;
