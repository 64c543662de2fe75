//! Vlan: an allocatable VLAN of the lab's finite pool.
use vstd::prelude::*;
use crate::text::{decimal, decimal_text, text_eq};

verus! {

/// Vlan represents an allocatable VLAN in the lab.
pub struct VlanSpec {
    /// VLAN ID (1-4094).
    pub vlan_id: VlanId,
    /// Whether this VLAN has public/external connectivity.
    pub public: bool,
    /// Optional subnet for this VLAN (informational).
    pub subnet: Option<String>,
    /// Optional gateway for this VLAN (informational).
    pub gateway: Option<String>,
    /// Administrative state.
    pub admin_state: VlanAdminState,
    /// Arbitrary labels.
    pub labels: Vec<(String, String)>,
}

/// VLAN ID (1-4094).
#[derive(Clone, Copy, Debug, PartialEq, Eq, Structural)]
pub struct VlanId(u16);

/// The ids a VLAN may have.
pub open spec fn valid_vlan_id(id: int) -> bool {
    1 <= id <= 4094
}

/// The message an id outside the range is refused with.
pub open spec fn vlan_id_error() -> Seq<char> {
    "VLAN ID must be between 1 and 4094"@
}

impl VlanId {
    #[verifier::type_invariant]
    spec fn in_range(&self) -> bool {
        valid_vlan_id(self.0 as int)
    }

    /// The id as a number.
    pub closed spec fn value(&self) -> u16 {
        self.0
    }

    /// An id in 1..=4094; anything else is refused.
    pub fn new(id: u16) -> (r: Result<Self, &'static str>)
        ensures
            match r {
                Ok(v) => valid_vlan_id(id as int) && v.value() == id,
                Err(e) => !valid_vlan_id(id as int) && e@ == vlan_id_error(),
            },
    {
        if id == 0 || id > 4094 {
            Err("VLAN ID must be between 1 and 4094")
        } else {
            Ok(VlanId(id))
        }
    }

    /// The id as a number, always in 1..=4094.
    pub fn get(&self) -> (r: u16)
        ensures
            r == self.value(),
            valid_vlan_id(r as int),
    {
        proof {
            use_type_invariant(self);
        }
        self.0
    }

    /// The decimal text of the id.
    pub fn to_string(&self) -> (r: String)
        ensures
            r@ == decimal_text(self.value() as nat),
    {
        decimal(self.0 as u64)
    }
}

impl TryFrom<u16> for VlanId {
    type Error = &'static str;

    fn try_from(value: u16) -> (r: Result<Self, Self::Error>)
        ensures
            match r {
                Ok(v) => valid_vlan_id(value as int) && v.value() == value,
                Err(e) => !valid_vlan_id(value as int) && e@ == vlan_id_error(),
            },
    {
        if value == 0 || value > 4094 {
            Err("VLAN ID must be between 1 and 4094")
        } else {
            Ok(VlanId(value))
        }
    }
}

impl vstd::std_specs::convert::TryFromSpecImpl<u16> for VlanId {
    open spec fn obeys_try_from_spec() -> bool {
        true
    }

    closed spec fn try_from_spec(v: u16) -> Result<Self, Self::Error> {
        if valid_vlan_id(v as int) {
            Ok(VlanId(v))
        } else {
            Err("VLAN ID must be between 1 and 4094")
        }
    }
}

impl vstd::std_specs::convert::FromSpecImpl<VlanId> for u16 {
    open spec fn obeys_from_spec() -> bool {
        true
    }

    open spec fn from_spec(v: VlanId) -> u16 {
        v.value()
    }
}

impl From<VlanId> for u16 {
    fn from(vlan: VlanId) -> (r: u16) {
        vlan.get()
    }
}

/// Administrative state for VLANs.
#[derive(Clone, Copy, Debug, PartialEq, Eq, Structural)]
pub enum VlanAdminState {
    /// Available for allocation.
    Available,
    /// Reserved/not allocatable.
    Reserved,
    /// Disabled.
    Disabled,
}

/// The lowercase name of a VLAN admin state.
pub open spec fn vlan_admin_state_name(s: VlanAdminState) -> Seq<char> {
    match s {
        VlanAdminState::Available => "available"@,
        VlanAdminState::Reserved => "reserved"@,
        VlanAdminState::Disabled => "disabled"@,
    }
}

impl VlanAdminState {
    /// Only available VLANs can be allocated.
    pub fn is_allocatable(&self) -> (r: bool)
        ensures
            r == (*self == VlanAdminState::Available),
    {
        match self {
            VlanAdminState::Available => true,
            _ => false,
        }
    }

    /// The lowercase name the state is written as.
    pub fn as_str(&self) -> (r: &'static str)
        ensures
            r@ == vlan_admin_state_name(*self),
    {
        match self {
            VlanAdminState::Available => "available",
            VlanAdminState::Reserved => "reserved",
            VlanAdminState::Disabled => "disabled",
        }
    }

    /// The state named `s` (lowercase names only).
    pub fn parse(s: &str) -> (r: Option<VlanAdminState>)
        ensures
            match r {
                Some(a) => vlan_admin_state_name(a) == s@,
                None => forall|a: VlanAdminState| vlan_admin_state_name(a) != s@,
            },
    {
        if text_eq(s, "available") {
            Some(VlanAdminState::Available)
        } else if text_eq(s, "reserved") {
            Some(VlanAdminState::Reserved)
        } else if text_eq(s, "disabled") {
            Some(VlanAdminState::Disabled)
        } else {
            None
        }
    }
}

impl Default for VlanAdminState {
    fn default() -> (r: Self)
        ensures
            r == VlanAdminState::Available,
    {
        VlanAdminState::Available
    }
}

} // verus!
