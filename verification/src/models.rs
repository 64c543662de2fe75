//! Data models: host allocations, VLAN allocations and bookings.
use vstd::prelude::*;
use vstd::arithmetic::power::pow;
use crate::clock::{timestamp_lt, utc_now, Timestamp};

verus! {

/// Current provisioning state of an allocated host.
#[derive(Clone, Copy, Debug, PartialEq, Eq, Structural)]
pub enum ProvisionState {
    /// Host is being provisioned
    Provisioning,
    /// Host is ready to use
    Ready,
    /// Host is being reprovisioned
    Reprovisioning,
    /// Host is being released
    Releasing,
    /// Host has been released
    Released,
}

/// Host allocation (part of a booking). Ids are the 128-bit values of UUIDs.
pub struct HostAllocation {
    /// Allocation ID
    pub id: u128,
    /// Host identifier
    pub host_id: String,
    /// Booking this host belongs to
    pub booking_id: u128,
    /// Who owns this allocation
    pub owner: String,
    /// When allocated
    pub allocated_at: Timestamp,
    /// When allocation expires (booking end time)
    pub expires_at: Timestamp,
    /// Current provisioning state
    pub provision_state: ProvisionState,
    /// Allocation metadata (JSON text)
    pub metadata: String,
}

impl HostAllocation {
    /// Expired once `now` is past the expiry time.
    pub fn is_expired_at(&self, now: Timestamp) -> (r: bool)
        ensures
            r == timestamp_lt(self.expires_at, now),
    {
        self.expires_at.is_before(&now)
    }

    /// Active while not expired at `now` and not released.
    pub fn is_active_at(&self, now: Timestamp) -> (r: bool)
        ensures
            r == (!timestamp_lt(self.expires_at, now) && self.provision_state != ProvisionState::Released),
    {
        !self.is_expired_at(now) && self.provision_state != ProvisionState::Released
    }

    /// Whether the allocation has expired by the clock now.
    pub fn is_expired(&self) -> (r: bool)
        ensures
            exists|now: Timestamp| r == timestamp_lt(self.expires_at, now),
    {
        let now = utc_now();
        self.is_expired_at(now)
    }

    /// Whether the allocation is active by the clock now; a released allocation never is.
    pub fn is_active(&self) -> (r: bool)
        ensures
            self.provision_state == ProvisionState::Released ==> !r,
            exists|now: Timestamp| r == (!timestamp_lt(self.expires_at, now) && self.provision_state
                != ProvisionState::Released),
    {
        !self.is_expired() && self.provision_state != ProvisionState::Released
    }
}

/// VLAN allocation.
pub struct VlanAllocation {
    /// Allocation ID
    pub id: u128,
    /// VLAN number (auto-assigned)
    pub vlan_id: u16,
    /// Booking this VLAN belongs to
    pub booking_id: u128,
    /// Purpose of this VLAN
    pub purpose: String,
    /// When allocated
    pub allocated_at: Timestamp,
    /// When allocation expires
    pub expires_at: Timestamp,
}

/// Booking (collection of hosts and VLANs).
pub struct Booking {
    /// Booking ID
    pub id: u128,
    /// Booking owner
    pub owner: String,
    /// Booking start time
    pub start_time: Timestamp,
    /// Booking end time (can be extended)
    pub end_time: Timestamp,
    /// Hosts in this booking
    pub host_allocations: Vec<u128>,
    /// VLANs in this booking
    pub vlan_allocations: Vec<u128>,
    /// Booking status
    pub status: BookingStatus,
    /// Booking metadata (JSON text)
    pub metadata: String,
}

/// Booking status.
#[derive(Clone, Copy, Debug, PartialEq, Eq, Structural)]
pub enum BookingStatus {
    /// Booking is scheduled for future
    Scheduled,
    /// Booking is active
    Active,
    /// Booking is being extended
    Extending,
    /// Booking has expired
    Expired,
    /// Booking was cancelled
    Cancelled,
}

/// A booking is active from its start time until (excluding) its end time, while its
/// status is active.
pub open spec fn booking_active_at(b: Booking, now: Timestamp) -> bool {
    !timestamp_lt(now, b.start_time) && timestamp_lt(now, b.end_time) && b.status == BookingStatus::Active
}

impl Booking {
    /// Active at `now` when `start_time <= now < end_time` and the status is active.
    pub fn is_active_at(&self, now: Timestamp) -> (r: bool)
        ensures
            r == (!timestamp_lt(now, self.start_time) && timestamp_lt(now, self.end_time) && self.status
                == BookingStatus::Active),
    {
        !now.is_before(&self.start_time) && now.is_before(&self.end_time) && self.status == BookingStatus::Active
    }

    /// Expired at `now` once `now >= end_time`.
    pub fn is_expired_at(&self, now: Timestamp) -> (r: bool)
        ensures
            r == !timestamp_lt(now, self.end_time),
    {
        !now.is_before(&self.end_time)
    }

    /// Whether the booking is active by the clock now.
    pub fn is_active(&self) -> (r: bool)
        ensures
            self.status != BookingStatus::Active ==> !r,
            exists|now: Timestamp| r == #[trigger] booking_active_at(*self, now),
    {
        let now = utc_now();
        let r = self.is_active_at(now);
        assert(r == booking_active_at(*self, now));
        r
    }

    /// Whether the booking has expired by the clock now.
    pub fn is_expired(&self) -> (r: bool)
        ensures
            exists|now: Timestamp| r == !timestamp_lt(now, self.end_time),
    {
        let now = utc_now();
        self.is_expired_at(now)
    }
}

/// The lowercase hexadecimal digit of `d < 16`.
pub open spec fn hex_digit_lower(d: int) -> char {
    if d < 10 {
        ((48 + d) as u32) as char
    } else {
        ((87 + d) as u32) as char
    }
}

/// The 32 lowercase hexadecimal digits of `v`, most significant first.
pub open spec fn hex32(v: u128) -> Seq<char> {
    Seq::new(32, |k: int| hex_digit_lower(((v as int) / pow(16, (31 - k) as nat)) % 16))
}

/// The hyphenated text of the UUID with value `v` (8-4-4-4-12 lowercase digits).
pub open spec fn uuid_text(v: u128) -> Seq<char> {
    let h = hex32(v);
    h.subrange(0, 8) + seq!['-'] + h.subrange(8, 12) + seq!['-'] + h.subrange(12, 16) + seq!['-'] + h.subrange(16, 20)
        + seq!['-'] + h.subrange(20, 32)
}

/// Writes the UUID whose big-endian 128-bit value is `v` (`Uuid::from_u128`) with its
/// `Display`: lowercase hyphenated hexadecimal, as `uuid_text` states.
#[verifier::external_body]
fn uuid_to_text(v: u128) -> (s: String)
    ensures
        s@ == uuid_text(v),
{
    uuid::Uuid::from_u128(v).to_string()
}

/// The etcd key of a host allocation.
pub open spec fn allocation_key_text(id: u128) -> Seq<char> {
    "/neolaas/host_allocations/"@ + uuid_text(id)
}

impl HostAllocation {
    /// The etcd key this allocation is stored under.
    pub fn key(&self) -> (r: String)
        ensures
            r@ == allocation_key_text(self.id),
    {
        String::from_str("/neolaas/host_allocations/").concat(uuid_to_text(self.id).as_str())
    }
}

} // verus!
