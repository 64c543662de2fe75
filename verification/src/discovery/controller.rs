//! The discovery state machine: Initialization, Registration, Convergence, then
//! Maintenance until shutdown moves it to Terminating.
use vstd::prelude::*;
use crate::discovery::phases::DiscoveryPhases;

verus! {

/// Discovery controller state machine states.
#[derive(Clone, Copy, Debug, PartialEq, Eq, Structural)]
pub enum DiscoveryState {
    /// Initial state: generating identity and connecting to etcd
    Initialization,
    /// Registering peer in etcd with lease
    Registration,
    /// Performing initial sync of all peers
    Convergence,
    /// Steady-state: watching for peer changes
    Maintenance,
    /// Graceful shutdown in progress
    Terminating,
}

/// Position of a state in the protocol.
pub open spec fn state_rank(s: DiscoveryState) -> int {
    match s {
        DiscoveryState::Initialization => 0,
        DiscoveryState::Registration => 1,
        DiscoveryState::Convergence => 2,
        DiscoveryState::Maintenance => 3,
        DiscoveryState::Terminating => 4,
    }
}

/// The phase that follows `s` when `s` completes.
pub open spec fn next_phase(s: DiscoveryState) -> Option<DiscoveryState> {
    match s {
        DiscoveryState::Initialization => Some(DiscoveryState::Registration),
        DiscoveryState::Registration => Some(DiscoveryState::Convergence),
        DiscoveryState::Convergence => Some(DiscoveryState::Maintenance),
        _ => None,
    }
}

/// What can interrupt maintenance.
#[derive(Clone, Copy, Debug, PartialEq, Eq, Structural)]
pub enum MaintenanceEvent {
    /// The node was asked to shut down
    ExternalShutdown,
    /// The lease keep-alive failed: the node is invisible to the cluster
    KeepAliveFailed,
    /// Processing the watch stream failed
    WatchFailed,
}

/// What the controller does about it.
#[derive(Clone, Copy, Debug, PartialEq, Eq, Structural)]
pub enum MaintenanceAction {
    /// Shut down gracefully and finish successfully
    ShutdownAndStop,
    /// Shut down gracefully and finish with an error
    ShutdownAndFail,
    /// Wait the reconnect delay and open a new watch stream
    ReconnectWatch,
}

/// The steps of a graceful shutdown.
pub struct ShutdownPlan {
    /// The lease to revoke, after which the DELETE propagation is awaited
    pub revoke_lease: Option<i64>,
}

/// What maintenance did about an interruption.
pub enum MaintenanceOutcome {
    /// Wait the reconnect delay and open a new watch stream
    Reconnect,
    /// The controller shut down gracefully; discovery finishes successfully after the plan
    Stopped(ShutdownPlan),
    /// The controller shut down gracefully; discovery finishes with an error after the plan
    Failed(ShutdownPlan),
}

/// The state start-up reaches from `s` when its phases end with `outcomes` in turn, and
/// whether it stopped at a failed phase: a success moves to the next phase, the first
/// failure stops start-up where it is, and maintenance ends start-up.
pub open spec fn startup_run(s: DiscoveryState, outcomes: Seq<bool>) -> (DiscoveryState, bool)
    decreases outcomes.len(),
{
    if outcomes.len() == 0 {
        (s, false)
    } else {
        match next_phase(s) {
            None => (s, false),
            Some(n) => if outcomes[0] {
                startup_run(n, outcomes.drop_first())
            } else {
                (s, true)
            },
        }
    }
}

/// Discovery controller: the protocol state, the lease, and the phases' decisions.
pub struct DiscoveryController {
    /// Phase manager
    pub phases: DiscoveryPhases,
    /// Current lease ID
    pub lease_id: Option<i64>,
    /// Current state
    pub state: DiscoveryState,
}

impl DiscoveryController {
    pub open spec fn state_of(&self) -> DiscoveryState {
        self.state
    }

    pub open spec fn lease_of(&self) -> Option<i64> {
        self.lease_id
    }

    /// A controller in Initialization, holding no lease.
    pub fn new(phases: DiscoveryPhases) -> (r: Self)
        ensures
            r.state_of() == DiscoveryState::Initialization,
            r.lease_of() is None,
            r.phases == phases,
    {
        DiscoveryController { phases, lease_id: None, state: DiscoveryState::Initialization }
    }

    /// Current state.
    pub fn state(&self) -> (r: DiscoveryState)
        ensures
            r == self.state_of(),
    {
        self.state
    }

    /// Current lease.
    pub fn lease_id(&self) -> (r: Option<i64>)
        ensures
            r == self.lease_of(),
    {
        self.lease_id
    }

    /// Moves to the next phase once the current one completed; `false` (and no change)
    /// when there is no next phase.
    pub fn advance(&mut self) -> (r: bool)
        ensures
            r == (next_phase(old(self).state_of()) is Some),
            r ==> final(self).state_of() == next_phase(old(self).state_of())->0,
            !r ==> final(self).state_of() == old(self).state_of(),
            final(self).lease_of() == old(self).lease_of(),
            final(self).phases == old(self).phases,
    {
        let next = match self.state {
            DiscoveryState::Initialization => Some(DiscoveryState::Registration),
            DiscoveryState::Registration => Some(DiscoveryState::Convergence),
            DiscoveryState::Convergence => Some(DiscoveryState::Maintenance),
            _ => None,
        };
        match next {
            Some(s) => {
                self.state = s;
                true
            },
            None => false,
        }
    }

    /// Ends the current start-up phase with its outcome: after a success the controller
    /// moves on to the next phase (`true`); after a failure it stays where it is and
    /// start-up stops there with that phase's error (`false`).
    pub fn finish_phase(&mut self, succeeded: bool) -> (r: bool)
        ensures
            r == (succeeded && next_phase(old(self).state_of()) is Some),
            r ==> final(self).state_of() == next_phase(old(self).state_of())->0,
            !r ==> final(self).state_of() == old(self).state_of(),
            final(self).state_of() == startup_run(old(self).state_of(), seq![succeeded]).0,
            final(self).lease_of() == old(self).lease_of(),
            final(self).phases == old(self).phases,
    {
        proof {
            reveal_with_fuel(startup_run, 2);
            assert(seq![succeeded].drop_first() =~= Seq::<bool>::empty());
        }
        if succeeded {
            self.advance()
        } else {
            false
        }
    }

    /// Remembers the lease granted during registration.
    pub fn record_lease(&mut self, lease_id: i64)
        ensures
            final(self).lease_of() == Some(lease_id),
            final(self).state_of() == old(self).state_of(),
            final(self).phases == old(self).phases,
    {
        self.lease_id = Some(lease_id);
    }

    /// What maintenance does about an interruption.
    pub fn on_maintenance_event(&self, event: MaintenanceEvent) -> (r: MaintenanceAction)
        ensures
            event == MaintenanceEvent::ExternalShutdown ==> r == MaintenanceAction::ShutdownAndStop,
            event == MaintenanceEvent::KeepAliveFailed ==> r == MaintenanceAction::ShutdownAndFail,
            event == MaintenanceEvent::WatchFailed ==> r == MaintenanceAction::ReconnectWatch,
    {
        match event {
            MaintenanceEvent::ExternalShutdown => MaintenanceAction::ShutdownAndStop,
            MaintenanceEvent::KeepAliveFailed => MaintenanceAction::ShutdownAndFail,
            MaintenanceEvent::WatchFailed => MaintenanceAction::ReconnectWatch,
        }
    }

    /// Maintenance's answer to an interruption, carried out on the controller: an external
    /// shutdown or a keep-alive failure shuts the controller down (its lease, if any, to be
    /// revoked), finishing successfully or with an error; a failed watch is reconnected,
    /// with no change.
    pub fn handle_maintenance_event(&mut self, event: MaintenanceEvent) -> (r: MaintenanceOutcome)
        ensures
            final(self).lease_of() == old(self).lease_of(),
            final(self).phases == old(self).phases,
            event == MaintenanceEvent::WatchFailed ==> r is Reconnect && final(self).state_of() == old(self).state_of(),
            event == MaintenanceEvent::ExternalShutdown ==> (r matches MaintenanceOutcome::Stopped(plan)
                && plan.revoke_lease == old(self).lease_of()) && final(self).state_of() == DiscoveryState::Terminating,
            event == MaintenanceEvent::KeepAliveFailed ==> (r matches MaintenanceOutcome::Failed(plan)
                && plan.revoke_lease == old(self).lease_of()) && final(self).state_of() == DiscoveryState::Terminating,
    {
        match self.on_maintenance_event(event) {
            MaintenanceAction::ReconnectWatch => MaintenanceOutcome::Reconnect,
            MaintenanceAction::ShutdownAndStop => MaintenanceOutcome::Stopped(self.begin_shutdown()),
            MaintenanceAction::ShutdownAndFail => MaintenanceOutcome::Failed(self.begin_shutdown()),
        }
    }

    /// Graceful shutdown: the controller terminates, and the lease, if one was granted,
    /// is revoked (then the DELETE propagation is awaited) before the swarm is told.
    pub fn begin_shutdown(&mut self) -> (r: ShutdownPlan)
        ensures
            final(self).state_of() == DiscoveryState::Terminating,
            r.revoke_lease == old(self).lease_of(),
            final(self).lease_of() == old(self).lease_of(),
            final(self).phases == old(self).phases,
    {
        self.state = DiscoveryState::Terminating;
        ShutdownPlan { revoke_lease: self.lease_id }
    }
}

/// The answer of one keep-alive round on the lease.
#[derive(Clone, Copy, Debug, PartialEq, Eq, Structural)]
pub enum KeepAliveReply {
    /// The lease was renewed, with this remaining time to live (seconds)
    Renewed(i64),
    /// The keep-alive stream ended
    StreamClosed,
    /// The stream reported an error
    Failed,
}

/// After one keep-alive round: nothing while the lease is renewed; a keep-alive failure
/// (which shuts discovery down) when the request could not be sent or the lease was not
/// renewed.
pub fn keepalive_round(sent: bool, reply: KeepAliveReply) -> (r: Option<MaintenanceEvent>)
    ensures
        r == if sent && reply is Renewed {
            None::<MaintenanceEvent>
        } else {
            Some(MaintenanceEvent::KeepAliveFailed)
        },
{
    if !sent {
        return Some(MaintenanceEvent::KeepAliveFailed);
    }
    match reply {
        KeepAliveReply::Renewed(_) => None,
        _ => Some(MaintenanceEvent::KeepAliveFailed),
    }
}

/// Start-up runs its phases in order and stops at the first failure: from initialization,
/// it reaches maintenance exactly when the first three phases succeed; when it stops at a
/// failure, the state is the phase that failed, and every earlier phase succeeded.
pub proof fn lemma_startup_run(outcomes: Seq<bool>)
    ensures
        ({
            let (st, failed) = startup_run(DiscoveryState::Initialization, outcomes);
            &&& (st == DiscoveryState::Maintenance && !failed) <==> (outcomes.len() >= 3 && outcomes[0] && outcomes[1]
                && outcomes[2])
            &&& failed ==> state_rank(st) < 3 && state_rank(st) < outcomes.len() && !outcomes[state_rank(st)]
                && forall|k: int| 0 <= k < state_rank(st) ==> #[trigger] outcomes[k]
        }),
{
    let o = outcomes;
    if o.len() > 0 && o[0] {
        let o1 = o.drop_first();
        assert(o1.len() > 0 ==> o1[0] == o[1]);
        if o1.len() > 0 && o1[0] {
            let o2 = o1.drop_first();
            assert(o2.len() > 0 ==> o2[0] == o[2]);
            if o2.len() > 0 && o2[0] {
                let o3 = o2.drop_first();
                assert(startup_run(DiscoveryState::Maintenance, o3) == (DiscoveryState::Maintenance, false));
                assert(startup_run(DiscoveryState::Convergence, o2) == startup_run(DiscoveryState::Maintenance, o3));
            } else {
                assert(startup_run(DiscoveryState::Convergence, o2).0 == DiscoveryState::Convergence);
            }
            assert(startup_run(DiscoveryState::Registration, o1) == startup_run(DiscoveryState::Convergence, o2));
        } else {
            assert(startup_run(DiscoveryState::Registration, o1).0 == DiscoveryState::Registration);
        }
        assert(startup_run(DiscoveryState::Initialization, o) == startup_run(DiscoveryState::Registration, o1));
    }
}

/// Start-up runs its phases in order, initialization, registration, convergence,
/// maintenance, one step per successful phase.
pub proof fn lemma_startup_order()
    ensures
        next_phase(DiscoveryState::Initialization) == Some(DiscoveryState::Registration),
        next_phase(DiscoveryState::Registration) == Some(DiscoveryState::Convergence),
        next_phase(DiscoveryState::Convergence) == Some(DiscoveryState::Maintenance),
{
}

/// The protocol only moves forward: advancing or shutting down never returns to an
/// earlier state, and Terminating is final.
pub proof fn lemma_discovery_moves_forward(s: DiscoveryState)
    ensures
        next_phase(s) is Some ==> state_rank(next_phase(s)->0) == state_rank(s) + 1,
        state_rank(s) <= state_rank(DiscoveryState::Terminating),
        next_phase(DiscoveryState::Terminating) is None,
        next_phase(DiscoveryState::Maintenance) is None,
{
}

} // verus!
