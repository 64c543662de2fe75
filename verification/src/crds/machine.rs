//! Machine: a physical server of the lab inventory (static configuration only).
use vstd::prelude::*;
use crate::crds::mac_address_string::MacAddr;
use crate::text::text_eq;

verus! {

/// Machine represents a physical server in the lab inventory: its network interfaces and
/// their hardwired switch ports, its BMC, and administrative controls.
pub struct MachineSpec {
    /// Network interfaces and their hardwired switch port connections.
    pub interfaces: Vec<NetworkInterface>,
    /// BMC/IPMI configuration for out-of-band management.
    pub bmc: BmcConfig,
    /// Administrative state controlling machine availability.
    pub admin_state: AdminState,
    /// Cluster assignment for multi-cluster deployments.
    pub cluster: String,
    /// Optional reservation - prevents booking unless by this entity.
    pub reserved_for: Option<String>,
    /// Arbitrary labels for filtering and organization.
    pub labels: Vec<(String, String)>,
}

/// The cluster a machine belongs to when its spec names none.
pub fn default_cluster() -> (r: String)
    ensures
        r@ == "default"@,
{
    String::from_str("default")
}

/// A physical network interface and its hardwired switch port connection.
pub struct NetworkInterface {
    /// MAC address of this interface.
    pub mac: MacAddr,
    /// The switch and port this interface is physically cabled to.
    pub switch_port: SwitchPortRef,
    /// Whether this is the PXE boot interface.
    pub pxe: bool,
}

/// Reference to a specific port on a switch.
pub struct SwitchPortRef {
    /// Name of the Switch CR.
    pub switch: String,
    /// Port identifier (e.g., "Ethernet1/1", "Gi0/1").
    pub port: String,
}

/// BMC configuration for out-of-band management.
pub struct BmcConfig {
    /// BMC IP address, as text.
    pub address: String,
    /// Management protocol.
    pub protocol: BmcProtocol,
    /// Reference to Secret with `username` and `password` keys.
    pub credentials_secret: String,
    /// Whether BMC uses in-band management (no dedicated port).
    pub in_band: bool,
}

/// BMC protocol types.
#[derive(Clone, Copy, Debug, PartialEq, Eq, Structural)]
pub enum BmcProtocol {
    Redfish,
    Ipmi,
    /// HPE iLO
    Ilo,
    /// Dell iDRAC
    Idrac,
}

/// The lowercase name of a protocol.
pub open spec fn bmc_protocol_name(p: BmcProtocol) -> Seq<char> {
    match p {
        BmcProtocol::Redfish => "redfish"@,
        BmcProtocol::Ipmi => "ipmi"@,
        BmcProtocol::Ilo => "ilo"@,
        BmcProtocol::Idrac => "idrac"@,
    }
}

impl BmcProtocol {
    /// The lowercase name the protocol is written as.
    pub fn as_str(&self) -> (r: &'static str)
        ensures
            r@ == bmc_protocol_name(*self),
    {
        match self {
            BmcProtocol::Redfish => "redfish",
            BmcProtocol::Ipmi => "ipmi",
            BmcProtocol::Ilo => "ilo",
            BmcProtocol::Idrac => "idrac",
        }
    }

    /// The protocol named `s` (lowercase names only).
    pub fn parse(s: &str) -> (r: Option<BmcProtocol>)
        ensures
            match r {
                Some(p) => bmc_protocol_name(p) == s@,
                None => forall|p: BmcProtocol| bmc_protocol_name(p) != s@,
            },
    {
        if text_eq(s, "redfish") {
            Some(BmcProtocol::Redfish)
        } else if text_eq(s, "ipmi") {
            Some(BmcProtocol::Ipmi)
        } else if text_eq(s, "ilo") {
            Some(BmcProtocol::Ilo)
        } else if text_eq(s, "idrac") {
            Some(BmcProtocol::Idrac)
        } else {
            None
        }
    }
}

impl Default for BmcProtocol {
    fn default() -> (r: Self)
        ensures
            r == BmcProtocol::Redfish,
    {
        BmcProtocol::Redfish
    }
}

/// Administrative state for the machine.
#[derive(Clone, Copy, Debug, PartialEq, Eq, Structural)]
pub enum AdminState {
    /// Available for booking.
    Available,
    /// Under maintenance - not bookable.
    Maintenance,
    /// Reserved for specific use (see `reserved_for`).
    Reserved,
    /// Being decommissioned.
    Decommissioned,
}

/// The lowercase name of an admin state.
pub open spec fn admin_state_name(s: AdminState) -> Seq<char> {
    match s {
        AdminState::Available => "available"@,
        AdminState::Maintenance => "maintenance"@,
        AdminState::Reserved => "reserved"@,
        AdminState::Decommissioned => "decommissioned"@,
    }
}

impl AdminState {
    /// Available and reserved machines can be booked.
    pub fn is_bookable(&self) -> (r: bool)
        ensures
            r == (*self == AdminState::Available || *self == AdminState::Reserved),
    {
        match self {
            AdminState::Available | AdminState::Reserved => true,
            _ => false,
        }
    }

    /// The lowercase name the state is written as.
    pub fn as_str(&self) -> (r: &'static str)
        ensures
            r@ == admin_state_name(*self),
    {
        match self {
            AdminState::Available => "available",
            AdminState::Maintenance => "maintenance",
            AdminState::Reserved => "reserved",
            AdminState::Decommissioned => "decommissioned",
        }
    }

    /// The admin state named `s` (lowercase names only).
    pub fn parse(s: &str) -> (r: Option<AdminState>)
        ensures
            match r {
                Some(a) => admin_state_name(a) == s@,
                None => forall|a: AdminState| admin_state_name(a) != s@,
            },
    {
        if text_eq(s, "available") {
            Some(AdminState::Available)
        } else if text_eq(s, "maintenance") {
            Some(AdminState::Maintenance)
        } else if text_eq(s, "reserved") {
            Some(AdminState::Reserved)
        } else if text_eq(s, "decommissioned") {
            Some(AdminState::Decommissioned)
        } else {
            None
        }
    }
}

impl Default for AdminState {
    fn default() -> (r: Self)
        ensures
            r == AdminState::Available,
    {
        AdminState::Available
    }
}

/// Distinct admin states have distinct names, so reading a name back gives the state.
pub proof fn lemma_admin_state_names_distinct(a: AdminState, b: AdminState)
    ensures
        admin_state_name(a) == admin_state_name(b) ==> a == b,
{
    reveal_strlit("available");
    reveal_strlit("maintenance");
    reveal_strlit("reserved");
    reveal_strlit("decommissioned");
    if a != b {
        assert(admin_state_name(a).len() != admin_state_name(b).len() || admin_state_name(a)[0] != admin_state_name(b)[0]);
    }
}

/// Distinct protocols have distinct names.
pub proof fn lemma_bmc_protocol_names_distinct(a: BmcProtocol, b: BmcProtocol)
    ensures
        bmc_protocol_name(a) == bmc_protocol_name(b) ==> a == b,
{
    reveal_strlit("redfish");
    reveal_strlit("ipmi");
    reveal_strlit("ilo");
    reveal_strlit("idrac");
    if a != b {
        assert(bmc_protocol_name(a).len() != bmc_protocol_name(b).len() || bmc_protocol_name(a)[1]
            != bmc_protocol_name(b)[1]);
    }
}

} // verus!
