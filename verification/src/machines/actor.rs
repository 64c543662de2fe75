//! A machine actor manages the lifecycle of one physical machine: idle, provisioned for
//! a booking, deprovisioned back to idle.
use vstd::prelude::*;
use crate::clock::{utc_now, Timestamp};
use crate::machines::messages::{
    state_name, CheckOwnership, DeprovisionMachine, DeprovisionResult, GetMachineStatus, MachineState,
    MachineStatus, OwnershipCheckResult, ProvisionMachine, ProvisionResult, UpdateAck,
};

verus! {

/// Simplified machine spec for actor use: the fields of the operator's machine spec that
/// the actor reads.
pub struct MachineSpec {
    pub admin_state: String,
    pub cluster: String,
    pub reserved_for: Option<String>,
    pub labels: Vec<(String, String)>,
}

/// The part of an actor that its handlers decide on.
pub struct ActorView {
    pub machine_id: Seq<char>,
    pub admin_state: Seq<char>,
    pub cluster: Seq<char>,
    pub state: MachineState,
    pub previous_state: MachineState,
    pub current_booking: Option<Seq<char>>,
}

/// Moves to `s`, remembering the state left; no change when already there.
pub open spec fn transition(v: ActorView, s: MachineState) -> ActorView {
    if v.state != s {
        ActorView { previous_state: v.state, state: s, ..v }
    } else {
        v
    }
}

/// An actor still initializing becomes idle.
pub open spec fn initialized(v: ActorView) -> ActorView {
    if v.state == MachineState::Initializing {
        transition(v, MachineState::Idle)
    } else {
        v
    }
}

/// Admin states under which a machine may be booked.
pub open spec fn admits_booking(admin_state: Seq<char>) -> bool {
    admin_state == "available"@ || admin_state == "reserved"@
}

/// The actor after a provision request for `booking`, and whether it succeeded.
pub open spec fn provision_outcome(v: ActorView, booking: Seq<char>) -> (ActorView, bool) {
    let w = initialized(v);
    if w.state != MachineState::Idle || !admits_booking(w.admin_state) {
        (w, false)
    } else {
        let booked = ActorView { current_booking: Some(booking), ..w };
        (transition(transition(booked, MachineState::Provisioning), MachineState::Booked), true)
    }
}

/// The actor after a deprovision request for `booking`, and whether it succeeded.
pub open spec fn deprovision_outcome(v: ActorView, booking: Seq<char>) -> (ActorView, bool) {
    let w = initialized(v);
    if w.current_booking != Some(booking) || w.state != MachineState::Booked {
        (w, false)
    } else {
        let idle = transition(transition(w, MachineState::Deprovisioning), MachineState::Idle);
        (ActorView { current_booking: None, ..idle }, true)
    }
}

/// What every actor keeps between messages: it rests idle, booked or still
/// initializing, and holds a booking exactly when booked.
pub open spec fn actor_consistent(v: ActorView) -> bool {
    &&& (v.state == MachineState::Initializing || v.state == MachineState::Idle || v.state
        == MachineState::Booked)
    &&& (v.state == MachineState::Booked <==> v.current_booking is Some)
}

/// Text of a state in `{:?}`-free display form, as in the actor's error messages.
pub open spec fn not_idle_message(s: MachineState) -> Seq<char> {
    "Machine is not idle (current state: "@ + state_name(s) + ")"@
}

pub open spec fn admin_refused_message(admin_state: Seq<char>) -> Seq<char> {
    "Machine admin state '"@ + admin_state + "' does not allow booking"@
}

pub open spec fn not_booked_message(s: MachineState) -> Seq<char> {
    "Machine is not booked (current state: "@ + state_name(s) + ")"@
}

/// The `{:?}` rendering of `Some(b)` for a string `b`, as std's `Debug` writes it.
pub uninterp spec fn debug_text_of_some(b: Seq<char>) -> Seq<char>;

/// The `{:?}` rendering of an optional booking: `None`, or `Some("...")`.
pub open spec fn booking_debug_text(o: Option<Seq<char>>) -> Seq<char> {
    match o {
        None => "None"@,
        Some(b) => debug_text_of_some(b),
    }
}

pub open spec fn option_view(o: Option<String>) -> Option<Seq<char>> {
    match o {
        Some(s) => Some(s@),
        None => None,
    }
}

pub open spec fn mismatch_message(current: Option<Seq<char>>, booking: Seq<char>) -> Seq<char> {
    "Booking ID mismatch: expected "@ + booking_debug_text(current) + ", got "@ + booking
}

/// Formats `Some(b)` with `{:?}` (std's `Debug` for `Option`: `Some(` then the string
/// quoted and escaped by `str`'s `Debug`, then `)`). The contract names the result only.
#[verifier::external_body]
fn debug_some_text(b: &String) -> (s: String)
    ensures
        s@ == debug_text_of_some(b@),
{
    format!("{:?}", Some(b))
}

/// Actor managing a single physical machine's lifecycle.
pub struct MachineActor {
    /// Machine identifier (name from K8s metadata)
    machine_id: String,
    /// Current machine specification
    spec: MachineSpec,
    /// Current operational state
    state: MachineState,
    /// Previous state
    previous_state: MachineState,
    /// Active booking ID if machine is booked
    current_booking: Option<String>,
    /// Last activity timestamp (Unix seconds)
    last_activity: i64,
    /// Node ID for event context
    node_id: String,
}

impl MachineActor {
    /// The decided-on part of the actor.
    pub closed spec fn view_of(&self) -> ActorView {
        ActorView {
            machine_id: self.machine_id@,
            admin_state: self.spec.admin_state@,
            cluster: self.spec.cluster@,
            state: self.state,
            previous_state: self.previous_state,
            current_booking: option_view(self.current_booking),
        }
    }

    /// The spec the actor currently holds.
    pub closed spec fn spec_view(&self) -> MachineSpec {
        self.spec
    }

    /// The node the actor reports events for.
    pub closed spec fn node_view(&self) -> Seq<char> {
        self.node_id@
    }

    /// Create with an already-parsed spec and node ID.
    pub fn with_spec_and_node_id(machine_id: String, spec: MachineSpec, node_id: String) -> (r: Self)
        ensures
            r.view_of() == (ActorView {
                machine_id: machine_id@,
                admin_state: spec.admin_state@,
                cluster: spec.cluster@,
                state: MachineState::Initializing,
                previous_state: MachineState::Initializing,
                current_booking: None,
            }),
            r.spec_view() == spec,
            r.node_view() == node_id@,
            actor_consistent(r.view_of()),
    {
        let now = utc_now();
        MachineActor {
            machine_id,
            spec,
            state: MachineState::Initializing,
            previous_state: MachineState::Initializing,
            current_booking: None,
            last_activity: now.secs,
            node_id,
        }
    }

    /// Create with an already-parsed spec.
    pub fn with_spec(machine_id: String, spec: MachineSpec) -> (r: Self)
        ensures
            r.view_of() == (ActorView {
                machine_id: machine_id@,
                admin_state: spec.admin_state@,
                cluster: spec.cluster@,
                state: MachineState::Initializing,
                previous_state: MachineState::Initializing,
                current_booking: None,
            }),
            r.spec_view() == spec,
            r.node_view() == "unknown"@,
            actor_consistent(r.view_of()),
    {
        Self::with_spec_and_node_id(machine_id, spec, String::from_str("unknown"))
    }

    /// Create from the outcome of parsing the spec JSON, with node ID for event context;
    /// a parse error is handed back.
    pub fn with_node_id(machine_id: String, parsed_spec: Result<MachineSpec, String>, node_id: String) -> (r: Result<Self, String>)
        ensures
            match (parsed_spec, r) {
                (Ok(spec), Ok(a)) => a.spec_view() == spec && a.view_of().machine_id == machine_id@
                    && a.view_of().state == MachineState::Initializing && a.view_of().current_booking is None
                    && a.node_view() == node_id@,
                (Err(e), Err(e2)) => e2 == e,
                _ => false,
            },
    {
        match parsed_spec {
            Ok(spec) => Ok(Self::with_spec_and_node_id(machine_id, spec, node_id)),
            Err(e) => Err(e),
        }
    }

    /// Create from the outcome of parsing the spec JSON.
    pub fn new(machine_id: String, parsed_spec: Result<MachineSpec, String>) -> (r: Result<Self, String>)
        ensures
            match (parsed_spec, r) {
                (Ok(spec), Ok(a)) => a.spec_view() == spec && a.view_of().machine_id == machine_id@
                    && a.view_of().state == MachineState::Initializing && a.view_of().current_booking is None
                    && a.node_view() == "unknown"@,
                (Err(e), Err(e2)) => e2 == e,
                _ => false,
            },
    {
        Self::with_node_id(machine_id, parsed_spec, String::from_str("unknown"))
    }

    /// Get the machine ID.
    pub fn machine_id(&self) -> (r: &str)
        ensures
            r@ == self.view_of().machine_id,
    {
        self.machine_id.as_str()
    }

    /// Transition to idle state after initialization.
    fn initialize(&mut self)
        ensures
            final(self).view_of() == initialized(old(self).view_of()),
            final(self).spec == old(self).spec,
            final(self).node_id == old(self).node_id,
    {
        if self.state == MachineState::Initializing {
            self.transition_to(MachineState::Idle);
        }
    }

    /// Transition to a new state, recording the activity time.
    fn transition_to(&mut self, new_state: MachineState)
        ensures
            final(self).view_of() == transition(old(self).view_of(), new_state),
            final(self).spec == old(self).spec,
            final(self).node_id == old(self).node_id,
    {
        if self.state != new_state {
            self.previous_state = self.state;
            self.state = new_state;
            self.update_activity(utc_now());
        }
    }

    /// Records `now` (a clock reading) as the time of the last activity.
    fn update_activity(&mut self, now: Timestamp)
        ensures
            final(self).last_activity == now.secs,
            final(self).view_of() == old(self).view_of(),
            final(self).spec == old(self).spec,
            final(self).node_id == old(self).node_id,
    {
        self.last_activity = now.secs;
    }

    /// Status query; an initializing actor becomes idle first.
    pub fn handle_get_machine_status(&mut self, _msg: GetMachineStatus) -> (r: MachineStatus)
        ensures
            final(self).view_of() == initialized(old(self).view_of()),
            final(self).spec_view() == old(self).spec_view(),
            final(self).node_view() == old(self).node_view(),
            r.machine_id@ == final(self).view_of().machine_id,
            r.state == final(self).view_of().state,
            r.admin_state@ == final(self).view_of().admin_state,
            r.cluster@ == final(self).view_of().cluster,
            option_view(r.current_booking) == final(self).view_of().current_booking,
            r.last_activity is Some,
    {
        self.initialize();
        MachineStatus {
            machine_id: self.machine_id.clone(),
            state: self.state,
            admin_state: self.spec.admin_state.clone(),
            cluster: self.spec.cluster.clone(),
            current_booking: self.current_booking.clone(),
            last_activity: Some(self.last_activity),
        }
    }

    /// Applies an updated spec, or reports why the update could not be read.
    pub fn handle_update_machine_spec(&mut self, parsed_spec: Result<MachineSpec, String>) -> (r: UpdateAck)
        ensures
            final(self).node_view() == old(self).node_view(),
            match parsed_spec {
                Ok(spec) => {
                    &&& r.success && r.error is None
                    &&& final(self).spec_view() == spec
                    &&& final(self).view_of() == (ActorView {
                        admin_state: spec.admin_state@,
                        cluster: spec.cluster@,
                        ..old(self).view_of()
                    })
                },
                Err(e) => {
                    &&& !r.success && r.error == Some(e)
                    &&& final(self).view_of() == old(self).view_of()
                    &&& final(self).spec_view() == old(self).spec_view()
                },
            },
    {
        match parsed_spec {
            Ok(new_spec) => {
                self.spec = new_spec;
                UpdateAck { success: true, error: None }
            },
            Err(e) => UpdateAck { success: false, error: Some(e) },
        }
    }

    /// Provisions the machine for a booking: only an idle machine whose admin state is
    /// `available` or `reserved` can be booked.
    pub fn handle_provision_machine(&mut self, msg: ProvisionMachine) -> (r: ProvisionResult)
        ensures
            (final(self).view_of(), r.success) == provision_outcome(old(self).view_of(), msg.booking_id@),
            final(self).spec_view() == old(self).spec_view(),
            final(self).node_view() == old(self).node_view(),
            r.success ==> r.error is None,
            !r.success ==> r.error is Some && ({
                let w = initialized(old(self).view_of());
                if w.state != MachineState::Idle {
                    r.error->0@ == not_idle_message(w.state)
                } else {
                    r.error->0@ == admin_refused_message(w.admin_state)
                }
            }),
    {
        self.initialize();
        // Check if machine is available for provisioning
        if self.state != MachineState::Idle {
            let msg_text = String::from_str("Machine is not idle (current state: ").concat(self.state.as_str()).concat(")");
            return ProvisionResult { success: false, error: Some(msg_text) };
        }
        // Check admin state allows booking
        let available = self.spec.admin_state == String::from_str("available");
        let reserved = self.spec.admin_state == String::from_str("reserved");
        if !available && !reserved {
            let msg_text = String::from_str("Machine admin state '").concat(self.spec.admin_state.as_str()).concat(
                "' does not allow booking",
            );
            return ProvisionResult { success: false, error: Some(msg_text) };
        }
        self.current_booking = Some(msg.booking_id);
        self.transition_to(MachineState::Provisioning);
        self.transition_to(MachineState::Booked);
        ProvisionResult { success: true, error: None }
    }

    /// Ends the booking `msg.booking_id`: only the current booking of a booked machine
    /// can be ended, and the machine returns to idle.
    pub fn handle_deprovision_machine(&mut self, msg: DeprovisionMachine) -> (r: DeprovisionResult)
        ensures
            (final(self).view_of(), r.success) == deprovision_outcome(old(self).view_of(), msg.booking_id@),
            final(self).spec_view() == old(self).spec_view(),
            final(self).node_view() == old(self).node_view(),
            r.success ==> r.error is None,
            !r.success ==> r.error is Some && ({
                let w = initialized(old(self).view_of());
                if w.current_booking != Some(msg.booking_id@) {
                    r.error->0@ == mismatch_message(w.current_booking, msg.booking_id@)
                } else {
                    r.error->0@ == not_booked_message(w.state)
                }
            }),
    {
        self.initialize();
        let matches = match &self.current_booking {
            Some(b) => *b == msg.booking_id,
            None => false,
        };
        if !matches {
            let expected = match &self.current_booking {
                Some(b) => debug_some_text(b),
                None => String::from_str("None"),
            };
            let msg_text = String::from_str("Booking ID mismatch: expected ").concat(expected.as_str()).concat(
                ", got ",
            ).concat(msg.booking_id.as_str());
            return DeprovisionResult { success: false, error: Some(msg_text) };
        }
        if self.state != MachineState::Booked {
            let msg_text = String::from_str("Machine is not booked (current state: ").concat(self.state.as_str()).concat(")");
            return DeprovisionResult { success: false, error: Some(msg_text) };
        }
        self.transition_to(MachineState::Deprovisioning);
        self.transition_to(MachineState::Idle);
        self.current_booking = None;
        DeprovisionResult { success: true, error: None }
    }

    /// The actor shuts down once its machine is no longer owned by this node.
    pub fn handle_check_ownership(&self, msg: CheckOwnership) -> (r: OwnershipCheckResult)
        ensures
            r.should_shutdown == !msg.is_still_local,
    {
        OwnershipCheckResult { should_shutdown: !msg.is_still_local }
    }
}

/// Every handler keeps an actor consistent: at rest it is initializing, idle or booked,
/// and it holds a booking exactly when booked.
pub proof fn lemma_handlers_keep_actor_consistent(v: ActorView, booking: Seq<char>, admin_state: Seq<char>, cluster: Seq<char>)
    requires
        actor_consistent(v),
    ensures
        actor_consistent(initialized(v)),
        actor_consistent(provision_outcome(v, booking).0),
        actor_consistent(deprovision_outcome(v, booking).0),
        actor_consistent(ActorView { admin_state, cluster, ..v }),
{
}

/// A successful provision can be undone by deprovisioning the same booking: the
/// machine is idle again, holds no booking, and keeps its identity and spec.
pub proof fn lemma_provision_then_deprovision(v: ActorView, booking: Seq<char>)
    requires
        actor_consistent(v),
        provision_outcome(v, booking).1,
    ensures
        deprovision_outcome(provision_outcome(v, booking).0, booking).1,
        deprovision_outcome(provision_outcome(v, booking).0, booking).0.state == MachineState::Idle,
        deprovision_outcome(provision_outcome(v, booking).0, booking).0.current_booking is None,
        deprovision_outcome(provision_outcome(v, booking).0, booking).0.machine_id == v.machine_id,
        deprovision_outcome(provision_outcome(v, booking).0, booking).0.admin_state == v.admin_state,
{
}

/// A booked machine cannot be booked again: a second provision fails, whatever its
/// booking, and leaves the actor as it was.
pub proof fn lemma_no_double_booking(v: ActorView, first: Seq<char>, second: Seq<char>)
    requires
        actor_consistent(v),
        provision_outcome(v, first).1,
    ensures
        !provision_outcome(provision_outcome(v, first).0, second).1,
        provision_outcome(provision_outcome(v, first).0, second).0 == provision_outcome(v, first).0,
{
}

/// Deprovisioning any booking other than the current one fails and changes nothing but
/// the end of initialization.
pub proof fn lemma_deprovision_needs_current_booking(v: ActorView, booking: Seq<char>)
    requires
        initialized(v).current_booking != Some(booking),
    ensures
        !deprovision_outcome(v, booking).1,
        deprovision_outcome(v, booking).0 == initialized(v),
{
}

/// Only an available or reserved machine is ever booked: a provision request that
/// succeeds found the (initialized) machine idle with admin state `available` or
/// `reserved`, and leaves it booked for that booking. Conversely, an idle machine in one
/// of those admin states accepts any booking.
pub proof fn lemma_provision_needs_bookable_admin_state(v: ActorView, booking: Seq<char>)
    ensures
        provision_outcome(v, booking).1 ==> {
            &&& initialized(v).state == MachineState::Idle
            &&& (initialized(v).admin_state == "available"@ || initialized(v).admin_state == "reserved"@)
            &&& provision_outcome(v, booking).0.state == MachineState::Booked
            &&& provision_outcome(v, booking).0.current_booking == Some(booking)
        },
        !provision_outcome(v, booking).1 ==> provision_outcome(v, booking).0 == initialized(v),
        (initialized(v).state == MachineState::Idle && (initialized(v).admin_state == "available"@
            || initialized(v).admin_state == "reserved"@)) ==> provision_outcome(v, booking).1,
{
}

} // verus!
