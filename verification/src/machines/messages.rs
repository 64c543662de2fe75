//! Messages of the machine actors.
use vstd::prelude::*;

verus! {

/// Get the current status of a machine.
pub struct GetMachineStatus;

/// Operational state of a machine actor.
#[derive(Clone, Copy, Debug, PartialEq, Eq, Structural)]
pub enum MachineState {
    /// Actor just started, loading state
    Initializing,
    /// Machine is idle and available
    Idle,
    /// Machine is currently booked/in-use
    Booked,
    /// Machine is being provisioned
    Provisioning,
    /// Machine is being deprovisioned
    Deprovisioning,
    /// Machine encountered an error
    Error,
}

/// The display name of a state.
pub open spec fn state_name(s: MachineState) -> Seq<char> {
    match s {
        MachineState::Initializing => "initializing"@,
        MachineState::Idle => "idle"@,
        MachineState::Booked => "booked"@,
        MachineState::Provisioning => "provisioning"@,
        MachineState::Deprovisioning => "deprovisioning"@,
        MachineState::Error => "error"@,
    }
}

impl MachineState {
    /// The lowercase name the state is displayed as.
    pub fn as_str(&self) -> (r: &'static str)
        ensures
            r@ == state_name(*self),
    {
        match self {
            MachineState::Initializing => "initializing",
            MachineState::Idle => "idle",
            MachineState::Booked => "booked",
            MachineState::Provisioning => "provisioning",
            MachineState::Deprovisioning => "deprovisioning",
            MachineState::Error => "error",
        }
    }

    /// The display text of the state.
    pub fn to_string(&self) -> (r: String)
        ensures
            r@ == state_name(*self),
    {
        String::from_str(self.as_str())
    }
}

/// Machine status response.
pub struct MachineStatus {
    /// Machine identifier (name from K8s)
    pub machine_id: String,
    /// Current operational state
    pub state: MachineState,
    /// Last observed admin state from spec
    pub admin_state: String,
    /// Cluster this machine belongs to
    pub cluster: String,
    /// Active booking, if the machine is booked
    pub current_booking: Option<String>,
    /// Last activity timestamp (Unix seconds)
    pub last_activity: Option<i64>,
}

/// Update machine spec (sent when etcd watch detects change).
pub struct UpdateMachineSpec {
    /// Updated machine spec as JSON
    pub spec_json: String,
}

/// Acknowledgement of spec update.
pub struct UpdateAck {
    /// Whether the update was applied successfully
    pub success: bool,
    /// Error message if failed
    pub error: Option<String>,
}

/// Provisioning configuration.
pub struct ProvisionConfig {
    /// OS image to deploy
    pub image: String,
    /// Network VLAN assignment
    pub vlan_id: Option<u16>,
    /// Additional metadata
    pub metadata: Vec<(String, String)>,
}

/// Request to provision a machine for a booking.
pub struct ProvisionMachine {
    /// Booking identifier
    pub booking_id: String,
    /// Requested configuration (e.g., OS image, network settings)
    pub config: ProvisionConfig,
}

/// Result of provisioning request.
pub struct ProvisionResult {
    /// Whether provisioning started successfully
    pub success: bool,
    /// Error message if failed to start
    pub error: Option<String>,
}

/// Request to deprovision a machine.
pub struct DeprovisionMachine {
    /// Booking identifier to end
    pub booking_id: String,
}

/// Result of deprovisioning request.
pub struct DeprovisionResult {
    /// Whether deprovisioning started successfully
    pub success: bool,
    /// Error message if failed to start
    pub error: Option<String>,
}

/// Ownership re-check, sent when the topology changes.
pub struct CheckOwnership {
    /// Whether a fresh sharding lookup still places the machine on this node
    pub is_still_local: bool,
}

/// Result of ownership check.
pub struct OwnershipCheckResult {
    /// Should this actor shut down?
    pub should_shutdown: bool,
}

/// Ask the manager for the status of every local machine actor.
pub struct GetAllMachineStatuses;

/// Ask the manager to load every machine from etcd.
pub struct SyncAllMachines;

/// Outcome of the initial machine sync.
pub struct SyncResult {
    pub total_machines: usize,
    pub local_actors: usize,
}

} // verus!
