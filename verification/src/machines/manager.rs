//! The machine actor manager's decisions: which machines this node runs an actor for,
//! given the machine specs seen in etcd and the sharding coordinator's answers.
use vstd::prelude::*;
use crate::machines::actor::{MachineActor, MachineSpec};
use crate::machines::messages::SyncResult;
use crate::sharding::messages::LookupResult;
use crate::inventory::{kind_prefix, machine_id_of_key, InventoryKind};

verus! {

/// What to do after a machine PUT.
pub enum PutAction {
    /// Nothing (not ours, or the ownership query failed)
    Nothing,
    /// Hand the new spec to the running actor
    UpdateActor { spec_json: String },
    /// Spawn this newly created actor
    SpawnActor { actor: MachineActor },
    /// The spec could not be read; no actor was created
    SpawnFailed { error: String },
    /// Stop the local actor: the machine now belongs to `new_owner`
    StopActor { new_owner: String },
}

/// A machine whose ownership was looked up during a rebalance.
pub struct OwnershipLookup {
    pub machine_id: String,
    pub is_local: bool,
}

/// The changes a rebalance makes: actors to stop, then actors to spawn.
pub struct RebalancePlan {
    pub to_stop: Vec<String>,
    pub to_spawn: Vec<(String, String)>,
}

/// The cached spec of `id` in an association list.
pub open spec fn cached_spec(specs: Seq<(Seq<char>, Seq<char>)>, id: Seq<char>) -> Option<Seq<char>> {
    if exists|i: int| 0 <= i < specs.len() && specs[i].0 == id {
        Some(specs[choose|i: int| 0 <= i < specs.len() && specs[i].0 == id].1)
    } else {
        None
    }
}

/// No machine id appears twice.
pub open spec fn unique_ids(specs: Seq<(Seq<char>, Seq<char>)>) -> bool {
    forall|i: int, j: int| 0 <= i < specs.len() && 0 <= j < specs.len() && i != j ==> specs[i].0 != specs[j].0
}

pub open spec fn pair_views(v: Seq<(String, String)>) -> Seq<(Seq<char>, Seq<char>)> {
    v.map_values(|p: (String, String)| (p.0@, p.1@))
}

pub open spec fn id_views(v: Seq<String>) -> Seq<Seq<char>> {
    v.map_values(|s: String| s@)
}

proof fn lemma_cached_at(specs: Seq<(Seq<char>, Seq<char>)>, i: int)
    requires
        unique_ids(specs),
        0 <= i < specs.len(),
    ensures
        cached_spec(specs, specs[i].0) == Some(specs[i].1),
{
    let j = choose|j: int| 0 <= j < specs.len() && specs[j].0 == specs[i].0;
    assert(j == i);
}

/// Manages which machines this node runs actors for.
pub struct MachineActorManager {
    /// Local peer ID
    local_peer_id: String,
    /// Node ID for event context
    node_id: String,
    /// Machine specs seen in etcd (id, spec JSON), each id once
    machine_specs: Vec<(String, String)>,
    /// Machines with a running actor, each once
    actors: Vec<String>,
}

impl MachineActorManager {
    /// The cached specs.
    pub closed spec fn specs(&self) -> Seq<(Seq<char>, Seq<char>)> {
        pair_views(self.machine_specs@)
    }

    /// The machines with a running actor.
    pub closed spec fn running(&self) -> Seq<Seq<char>> {
        id_views(self.actors@)
    }

    /// The manager's invariant: ids are unique, and every running actor's machine is cached.
    pub open spec fn consistent(&self) -> bool {
        &&& unique_ids(self.specs())
        &&& self.running().no_duplicates()
        &&& forall|k: int| 0 <= k < self.running().len() ==> cached_spec(self.specs(), #[trigger] self.running()[k]) is Some
    }

    /// The local peer's id text.
    pub closed spec fn local(&self) -> Seq<char> {
        self.local_peer_id@
    }

    /// The node id the manager's actors report events for.
    pub closed spec fn node(&self) -> Seq<char> {
        self.node_id@
    }

    /// A manager for the peer `local_peer_id` on node `node_id`, with no machine cached
    /// and no actor running.
    pub fn new(local_peer_id: String, node_id: String) -> (r: Self)
        ensures
            r.local() == local_peer_id@,
            r.node() == node_id@,
            r.specs().len() == 0,
            r.running().len() == 0,
            r.consistent(),
    {
        let r = MachineActorManager { local_peer_id, node_id, machine_specs: Vec::new(), actors: Vec::new() };
        assert(r.specs() =~= Seq::empty());
        assert(r.running() =~= Seq::empty());
        r
    }

    /// Get count of locally-managed actors.
    pub fn actor_count(&self) -> (r: usize)
        ensures
            r == self.running().len(),
    {
        self.actors.len()
    }

    /// Totals after the initial sync.
    pub fn sync_result(&self) -> (r: SyncResult)
        ensures
            r.total_machines == self.specs().len(),
            r.local_actors == self.running().len(),
    {
        SyncResult { total_machines: self.machine_specs.len(), local_actors: self.actors.len() }
    }

    /// The machines whose spec is cached, in cache order: the ones a rebalance looks up.
    pub fn machine_ids(&self) -> (r: Vec<String>)
        ensures
            id_views(r@) == self.specs().map_values(|p: (Seq<char>, Seq<char>)| p.0),
    {
        let mut out: Vec<String> = Vec::new();
        let mut i: usize = 0;
        while i < self.machine_specs.len()
            invariant
                i <= self.machine_specs.len(),
                id_views(out@) == self.specs().take(i as int).map_values(|p: (Seq<char>, Seq<char>)| p.0),
            decreases self.machine_specs.len() - i,
        {
            let ghost before = out@;
            out.push(self.machine_specs[i].0.clone());
            assert(id_views(out@) =~= id_views(before).push(self.specs()[i as int].0));
            i = i + 1;
            assert(self.specs().take(i as int).map_values(|p: (Seq<char>, Seq<char>)| p.0) =~= self.specs().take(
                i - 1,
            ).map_values(|p: (Seq<char>, Seq<char>)| p.0).push(self.specs()[i - 1].0));
        }
        assert(self.specs().take(i as int) =~= self.specs());
        out
    }

    fn spec_index(&self, id: &String) -> (r: Option<usize>)
        ensures
            match r {
                Some(i) => i < self.machine_specs.len() && self.specs()[i as int].0 == id@,
                None => forall|i: int| 0 <= i < self.specs().len() ==> self.specs()[i].0 != id@,
            },
    {
        let mut i: usize = 0;
        while i < self.machine_specs.len()
            invariant
                i <= self.machine_specs.len(),
                forall|k: int| 0 <= k < i ==> pair_views(self.machine_specs@)[k].0 != id@,
            decreases self.machine_specs.len() - i,
        {
            if self.machine_specs[i].0 == *id {
                return Some(i);
            }
            i = i + 1;
        }
        None
    }

    fn actor_index(&self, id: &String) -> (r: Option<usize>)
        ensures
            match r {
                Some(i) => i < self.actors.len() && self.running()[i as int] == id@,
                None => !self.running().contains(id@),
            },
    {
        let mut i: usize = 0;
        while i < self.actors.len()
            invariant
                i <= self.actors.len(),
                forall|k: int| 0 <= k < i ==> id_views(self.actors@)[k] != id@,
            decreases self.actors.len() - i,
        {
            if self.actors[i] == *id {
                return Some(i);
            }
            i = i + 1;
        }
        None
    }

    /// Whether an actor runs for `id`.
    pub fn has_actor(&self, id: &String) -> (r: bool)
        ensures
            r == self.running().contains(id@),
    {
        self.actor_index(id).is_some()
    }

    /// Caches `spec_json` as the spec of `id`.
    fn cache_spec(&mut self, id: &String, spec_json: &String)
        requires
            old(self).consistent(),
        ensures
            final(self).consistent(),
            final(self).local() == old(self).local(),
            final(self).node() == old(self).node(),
            final(self).running() == old(self).running(),
            forall|k: Seq<char>| #[trigger] cached_spec(final(self).specs(), k) == if k == id@ {
                Some(spec_json@)
            } else {
                cached_spec(old(self).specs(), k)
            },
    {
        let ghost s0 = self.specs();
        match self.spec_index(id) {
            Some(i) => {
                self.machine_specs.set(i, (id.clone(), spec_json.clone()));
                let ghost s1 = self.specs();
                assert(s1 =~= s0.update(i as int, (id@, spec_json@)));
                assert forall|k: Seq<char>| #[trigger] cached_spec(s1, k) == if k == id@ {
                    Some(spec_json@)
                } else {
                    cached_spec(s0, k)
                } by {
                    if k == id@ {
                        lemma_cached_at(s1, i as int);
                    } else if exists|j: int| 0 <= j < s0.len() && s0[j].0 == k {
                        let j = choose|j: int| 0 <= j < s0.len() && s0[j].0 == k;
                        lemma_cached_at(s0, j);
                        lemma_cached_at(s1, j);
                    }
                }
            },
            None => {
                self.machine_specs.push((id.clone(), spec_json.clone()));
                let ghost s1 = self.specs();
                assert(s1 =~= s0.push((id@, spec_json@)));
                assert forall|k: Seq<char>| #[trigger] cached_spec(s1, k) == if k == id@ {
                    Some(spec_json@)
                } else {
                    cached_spec(s0, k)
                } by {
                    if k == id@ {
                        lemma_cached_at(s1, s0.len() as int);
                    } else if exists|j: int| 0 <= j < s0.len() && s0[j].0 == k {
                        let j = choose|j: int| 0 <= j < s0.len() && s0[j].0 == k;
                        lemma_cached_at(s0, j);
                        lemma_cached_at(s1, j);
                    }
                }
            },
        }
        assert forall|k: int| 0 <= k < self.running().len() implies cached_spec(self.specs(), #[trigger] self.running()[k]) is Some by {
            assert(cached_spec(s0, self.running()[k]) is Some);
        }
    }

    /// Stops the actor of `id`, if one runs; says whether one did.
    pub fn stop_actor(&mut self, id: &String) -> (r: bool)
        requires
            old(self).consistent(),
        ensures
            final(self).consistent(),
            final(self).local() == old(self).local(),
            final(self).node() == old(self).node(),
            r == old(self).running().contains(id@),
            !final(self).running().contains(id@),
            forall|k: Seq<char>| k != id@ ==> (#[trigger] final(self).running().contains(k) <==> old(self).running().contains(k)),
            final(self).specs() == old(self).specs(),
    {
        let ghost r0 = self.running();
        match self.actor_index(id) {
            Some(i) => {
                self.actors.remove(i);
                assert(self.running() =~= r0.remove(i as int));
                assert forall|k: Seq<char>| k != id@ implies (#[trigger] self.running().contains(k) <==> r0.contains(k)) by {
                    if r0.contains(k) {
                        let j = choose|j: int| 0 <= j < r0.len() && r0[j] == k;
                        let j2 = if j < i { j } else { j - 1 };
                        assert(self.running()[j2] == k);
                    }
                }
                assert(!self.running().contains(id@)) by {
                    if self.running().contains(id@) {
                        let j = choose|j: int| 0 <= j < self.running().len() && self.running()[j] == id@;
                        let j2 = if j < i { j } else { j + 1 };
                        assert(r0[j2] == id@);
                    }
                }
                true
            },
            None => false,
        }
    }

    /// Creates and records the actor of a cached machine from its parsed spec. No actor is
    /// created for a machine that is not cached or already running, nor from a spec that
    /// could not be read (the error is handed back).
    pub fn spawn_actor(&mut self, id: &String, parsed_spec: Result<MachineSpec, String>) -> (r: Result<Option<MachineActor>, String>)
        requires
            old(self).consistent(),
        ensures
            final(self).consistent(),
            final(self).local() == old(self).local(),
            final(self).node() == old(self).node(),
            final(self).specs() == old(self).specs(),
            match r {
                Ok(Some(actor)) => {
                    &&& parsed_spec is Ok
                    &&& cached_spec(old(self).specs(), id@) is Some
                    &&& !old(self).running().contains(id@)
                    &&& final(self).running() == old(self).running().push(id@)
                    &&& actor.view_of().machine_id == id@
                    &&& actor.spec_view() == parsed_spec->Ok_0
                    &&& actor.node_view() == old(self).node()
                },
                Ok(None) => (cached_spec(old(self).specs(), id@) is None || old(self).running().contains(id@))
                    && final(self).running() == old(self).running(),
                Err(e) => parsed_spec == Err::<MachineSpec, String>(e) && cached_spec(old(self).specs(), id@) is Some
                    && !old(self).running().contains(id@) && final(self).running() == old(self).running(),
            },
    {
        let cached = self.spec_index(id).is_some();
        proof {
            if !cached {
                assert(!(exists|i: int| 0 <= i < self.specs().len() && self.specs()[i].0 == id@));
            } else {
            }
        }
        if !cached || self.has_actor(id) {
            proof {
                if cached {
                    let i = choose|i: int| 0 <= i < self.specs().len() && self.specs()[i].0 == id@;
                    lemma_cached_at(self.specs(), i);
                }
            }
            return Ok(None);
        }
        match MachineActor::with_node_id(id.clone(), parsed_spec, self.node_id.clone()) {
            Ok(actor) => {
                let ghost r0 = self.running();
                self.actors.push(id.clone());
                assert(self.running() =~= r0.push(id@));
                proof {
                    let i = choose|i: int| 0 <= i < self.specs().len() && self.specs()[i].0 == id@;
                    lemma_cached_at(self.specs(), i);
                    assert forall|k: int| 0 <= k < self.running().len() implies cached_spec(self.specs(), #[trigger] self.running()[k]) is Some by {
                        if k < r0.len() {
                            assert(self.running()[k] == r0[k]);
                        }
                    }
                    assert forall|a: int, b: int| 0 <= a < self.running().len() && 0 <= b < self.running().len() && a != b
                        implies self.running()[a] != self.running()[b] by {
                        if a < r0.len() && b < r0.len() {
                        } else if a < r0.len() {
                            assert(r0.contains(r0[a]));
                        } else {
                            assert(r0.contains(r0[b]));
                        }
                    }
                }
                Ok(Some(actor))
            },
            Err(e) => Err(e),
        }
    }

    /// A machine PUT: the spec is cached; then, by the ownership answer, the running actor
    /// gets the new spec, a new actor is created, or the actor of a machine that moved away
    /// is stopped. A failed ownership query changes nothing more.
    pub fn handle_machine_put(
        &mut self,
        machine_id: String,
        spec_json: String,
        parsed_spec: Result<MachineSpec, String>,
        lookup: Option<LookupResult>,
    ) -> (r: PutAction)
        requires
            old(self).consistent(),
        ensures
            final(self).consistent(),
            final(self).local() == old(self).local(),
            final(self).node() == old(self).node(),
            forall|k: Seq<char>| #[trigger] cached_spec(final(self).specs(), k) == if k == machine_id@ {
                Some(spec_json@)
            } else {
                cached_spec(old(self).specs(), k)
            },
            match lookup {
                None => r is Nothing && final(self).running() == old(self).running(),
                Some(l) => if l.is_local {
                    if old(self).running().contains(machine_id@) {
                        (r matches PutAction::UpdateActor { spec_json: s } && s@ == spec_json@)
                            && final(self).running() == old(self).running()
                    } else {
                        match parsed_spec {
                            Ok(spec) => (r matches PutAction::SpawnActor { actor } && actor.spec_view() == spec
                                && actor.view_of().machine_id == machine_id@ && actor.node_view() == old(self).node()) && final(self).running()
                                == old(self).running().push(machine_id@),
                            Err(e) => (r matches PutAction::SpawnFailed { error } && error == e) && final(self).running()
                                == old(self).running(),
                        }
                    }
                } else {
                    if old(self).running().contains(machine_id@) {
                        (r matches PutAction::StopActor { new_owner } && new_owner@ == match l.owner_peer {
                            Some(p) => p@,
                            None => "unknown"@,
                        }) && !final(self).running().contains(machine_id@) && forall|k: Seq<char>| k != machine_id@
                            ==> (#[trigger] final(self).running().contains(k) <==> old(self).running().contains(k))
                    } else {
                        r is Nothing && final(self).running() == old(self).running()
                    }
                },
            },
    {
        self.cache_spec(&machine_id, &spec_json);
        let l = match lookup {
            Some(l) => l,
            None => {
                return PutAction::Nothing;
            },
        };
        if l.is_local {
            if self.has_actor(&machine_id) {
                PutAction::UpdateActor { spec_json }
            } else {
                proof {
                    lemma_cached_at_exists(self.specs(), machine_id@);
                }
                match self.spawn_actor(&machine_id, parsed_spec) {
                    Ok(Some(actor)) => PutAction::SpawnActor { actor },
                    Ok(None) => PutAction::Nothing,
                    Err(error) => PutAction::SpawnFailed { error },
                }
            }
        } else {
            if self.has_actor(&machine_id) {
                self.stop_actor(&machine_id);
                let new_owner = match l.owner_peer {
                    Some(p) => p,
                    None => String::from_str("unknown"),
                };
                PutAction::StopActor { new_owner }
            } else {
                PutAction::Nothing
            }
        }
    }

    /// A machine DELETE: the spec is forgotten and its actor, if any, stopped; says
    /// whether one was.
    pub fn handle_machine_delete(&mut self, machine_id: &String) -> (r: bool)
        requires
            old(self).consistent(),
        ensures
            final(self).consistent(),
            final(self).local() == old(self).local(),
            final(self).node() == old(self).node(),
            r == old(self).running().contains(machine_id@),
            cached_spec(final(self).specs(), machine_id@) is None,
            !final(self).running().contains(machine_id@),
            forall|k: Seq<char>| k != machine_id@ ==> #[trigger] cached_spec(final(self).specs(), k) == cached_spec(
                old(self).specs(),
                k,
            ),
            forall|k: Seq<char>| k != machine_id@ ==> (#[trigger] final(self).running().contains(k)
                <==> old(self).running().contains(k)),
    {
        let had = self.stop_actor(machine_id);
        let ghost s0 = self.specs();
        match self.spec_index(machine_id) {
            Some(i) => {
                self.machine_specs.remove(i);
                let ghost s1 = self.specs();
                assert(s1 =~= s0.remove(i as int));
                assert forall|k: Seq<char>| k != machine_id@ implies #[trigger] cached_spec(s1, k) == cached_spec(s0, k) by {
                    if exists|j: int| 0 <= j < s0.len() && s0[j].0 == k {
                        let j = choose|j: int| 0 <= j < s0.len() && s0[j].0 == k;
                        lemma_cached_at(s0, j);
                        let j2 = if j < i { j } else { j - 1 };
                        assert(s1[j2] == s0[j]);
                        lemma_cached_at(s1, j2);
                    } else if exists|j: int| 0 <= j < s1.len() && s1[j].0 == k {
                        let j = choose|j: int| 0 <= j < s1.len() && s1[j].0 == k;
                        let j2 = if j < i { j } else { j + 1 };
                        assert(s0[j2].0 == k);
                    }
                }
                assert(cached_spec(s1, machine_id@) is None) by {
                    if exists|j: int| 0 <= j < s1.len() && s1[j].0 == machine_id@ {
                        let j = choose|j: int| 0 <= j < s1.len() && s1[j].0 == machine_id@;
                        let j2 = if j < i { j } else { j + 1 };
                        assert(s0[j2].0 == machine_id@);
                    }
                }
                assert forall|k: int| 0 <= k < self.running().len() implies cached_spec(self.specs(), #[trigger] self.running()[k]) is Some by {
                    assert(self.running().contains(self.running()[k]));
                    assert(cached_spec(s0, self.running()[k]) is Some);
                }
            },
            None => {
                assert(cached_spec(s0, machine_id@) is None);
            },
        }
        had
    }

    /// The rebalance plan for the machines whose ownership could be looked up, in lookup
    /// order: stop the actors of machines no longer local, spawn actors (from the cached
    /// spec) for local machines without one.
    pub fn rebalance_plan(&self, lookups: Vec<OwnershipLookup>) -> (r: RebalancePlan)
        requires
            self.consistent(),
        ensures
            id_views(r.to_stop@) == stop_list(lookup_views(lookups@), self.running()),
            pair_views(r.to_spawn@) == spawn_list(lookup_views(lookups@), self.running(), self.specs()),
    {
        let ghost lv = lookup_views(lookups@);
        let mut to_stop: Vec<String> = Vec::new();
        let mut to_spawn: Vec<(String, String)> = Vec::new();
        let mut j: usize = 0;
        while j < lookups.len()
            invariant
                j <= lookups.len(),
                lv == lookup_views(lookups@),
                unique_ids(self.specs()),
                id_views(to_stop@) == stop_list(lv.take(j as int), self.running()),
                pair_views(to_spawn@) == spawn_list(lv.take(j as int), self.running(), self.specs()),
            decreases lookups.len() - j,
        {
            let l = &lookups[j];
            assert(lv.take(j + 1).drop_last() =~= lv.take(j as int));
            assert(lv.take(j + 1).last() == (l.machine_id@, l.is_local));
            let has_actor = self.has_actor(&l.machine_id);
            if l.is_local && !has_actor {
                match self.spec_index(&l.machine_id) {
                    Some(i) => {
                        proof {
                            lemma_cached_at(self.specs(), i as int);
                        }
                        let ghost before = to_spawn@;
                        to_spawn.push((l.machine_id.clone(), self.machine_specs[i].1.clone()));
                        assert(pair_views(to_spawn@) =~= pair_views(before).push((l.machine_id@, self.specs()[i as int].1)));
                    },
                    None => {
                        assert(cached_spec(self.specs(), l.machine_id@) is None);
                    },
                }
            } else if !l.is_local && has_actor {
                let ghost before = to_stop@;
                to_stop.push(l.machine_id.clone());
                assert(id_views(to_stop@) =~= id_views(before).push(l.machine_id@));
            }
            j = j + 1;
        }
        assert(lv.take(lookups.len() as int) =~= lv);
        RebalancePlan { to_stop, to_spawn }
    }
}

pub open spec fn lookup_views(v: Seq<OwnershipLookup>) -> Seq<(Seq<char>, bool)> {
    v.map_values(|l: OwnershipLookup| (l.machine_id@, l.is_local))
}

/// The machines whose actor a rebalance stops: looked up as not local, with an actor.
pub open spec fn stop_list(lookups: Seq<(Seq<char>, bool)>, running: Seq<Seq<char>>) -> Seq<Seq<char>>
    decreases lookups.len(),
{
    if lookups.len() == 0 {
        Seq::empty()
    } else {
        let prev = stop_list(lookups.drop_last(), running);
        let l = lookups.last();
        if !l.1 && running.contains(l.0) {
            prev.push(l.0)
        } else {
            prev
        }
    }
}

/// The machines (with their cached spec) a rebalance spawns an actor for: looked up as
/// local, without an actor, with a cached spec.
pub open spec fn spawn_list(
    lookups: Seq<(Seq<char>, bool)>,
    running: Seq<Seq<char>>,
    specs: Seq<(Seq<char>, Seq<char>)>,
) -> Seq<(Seq<char>, Seq<char>)>
    decreases lookups.len(),
{
    if lookups.len() == 0 {
        Seq::empty()
    } else {
        let prev = spawn_list(lookups.drop_last(), running, specs);
        let l = lookups.last();
        if l.1 && !running.contains(l.0) && cached_spec(specs, l.0) is Some {
            prev.push((l.0, cached_spec(specs, l.0)->0))
        } else {
            prev
        }
    }
}

proof fn lemma_cached_at_exists(specs: Seq<(Seq<char>, Seq<char>)>, id: Seq<char>)
    requires
        cached_spec(specs, id) is Some,
    ensures
        exists|i: int| 0 <= i < specs.len() && specs[i].0 == id,
{
}

/// Asks the manager to rebalance its actors after a topology change.
pub struct RebalanceActors;

/// Kind of a machine change in etcd.
#[derive(Clone, Copy, Debug, PartialEq, Eq, Structural)]
pub enum EtcdEventType {
    Put,
    Delete,
}

/// A machine change seen on the etcd watch.
pub struct EtcdMachineEvent {
    pub machine_id: String,
    pub event_type: EtcdEventType,
    /// The spec JSON a put wrote, when it reads as text
    pub spec_json: Option<String>,
}

/// The machine a key names: the key without the machines prefix, or the key itself when
/// it lies outside it.
pub open spec fn machine_id_text(key: Seq<char>) -> Seq<char> {
    if kind_prefix(InventoryKind::Machine).is_prefix_of(key) {
        key.skip(kind_prefix(InventoryKind::Machine).len() as int)
    } else {
        key
    }
}

impl EtcdMachineEvent {
    /// The event for a watch event whose key reads as text: a put carries its value, a
    /// delete none.
    pub fn from_watch(key: &str, event_type: EtcdEventType, value: Option<String>) -> (r: Self)
        ensures
            r.machine_id@ == machine_id_text(key@),
            r.event_type == event_type,
            r.spec_json == match event_type {
                EtcdEventType::Put => value,
                EtcdEventType::Delete => None,
            },
    {
        let machine_id = machine_id_of_key(key);
        match event_type {
            EtcdEventType::Put => EtcdMachineEvent { machine_id, event_type, spec_json: value },
            EtcdEventType::Delete => EtcdMachineEvent { machine_id, event_type, spec_json: None },
        }
    }
}

pub open spec fn text_pairs(kvs: Seq<(Option<String>, Option<String>)>) -> bool {
    forall|i: int| 0 <= i < kvs.len() ==> (#[trigger] kvs[i]).0 is Some && kvs[i].1 is Some
}

/// The (machine id, spec JSON) pairs of the initial listing, in order; `None` when a key
/// or value is not text, which fails the whole sync.
pub fn listing_entries(kvs: Vec<(Option<String>, Option<String>)>) -> (r: Option<Vec<(String, String)>>)
    ensures
        match r {
            None => !text_pairs(kvs@),
            Some(v) => text_pairs(kvs@) && v@.len() == kvs@.len() && forall|i: int|
                0 <= i < v@.len() ==> (#[trigger] v@[i]).0@ == machine_id_text(kvs@[i].0->0@) && v@[i].1 == kvs@[i].1->0,
        },
{
    let mut out: Vec<(String, String)> = Vec::new();
    let mut rest = kvs;
    let ghost all = rest@;
    while rest.len() > 0
        invariant
            all == kvs@,
            out@.len() + rest@.len() == all.len(),
            rest@ == all.subrange(out@.len() as int, all.len() as int),
            forall|i: int| 0 <= i < out@.len() ==> (#[trigger] all[i]).0 is Some && all[i].1 is Some,
            forall|i: int|
                0 <= i < out@.len() ==> (#[trigger] out@[i]).0@ == machine_id_text(all[i].0->0@) && out@[i].1 == all[i].1->0,
        decreases rest.len(),
    {
        let ghost k = out@.len() as int;
        let (key, value) = rest.remove(0);
        assert(all[k] == (key, value));
        match (key, value) {
            (Some(key), Some(value)) => {
                let id = machine_id_of_key(key.as_str());
                out.push((id, value));
            },
            _ => {
                assert(!(all[k].0 is Some && all[k].1 is Some));
                return None;
            },
        }
        assert(rest@ =~= all.subrange(out@.len() as int, all.len() as int));
    }
    Some(out)
}

/// A rebalance never starts a second actor: every machine it spawns was looked up as
/// local, has no running actor, and is spawned from its cached spec. Every machine it
/// stops was looked up as not local and has a running actor.
pub proof fn lemma_rebalance_spawns_only_missing_actors(
    lookups: Seq<(Seq<char>, bool)>,
    running: Seq<Seq<char>>,
    specs: Seq<(Seq<char>, Seq<char>)>,
)
    ensures
        forall|i: int| 0 <= i < spawn_list(lookups, running, specs).len() ==> {
            let e = #[trigger] spawn_list(lookups, running, specs)[i];
            &&& !running.contains(e.0)
            &&& cached_spec(specs, e.0) == Some(e.1)
            &&& lookups.contains((e.0, true))
        },
        forall|i: int| 0 <= i < stop_list(lookups, running).len() ==> {
            let x = #[trigger] stop_list(lookups, running)[i];
            &&& running.contains(x)
            &&& lookups.contains((x, false))
        },
    decreases lookups.len(),
{
    if lookups.len() > 0 {
        let init = lookups.drop_last();
        lemma_rebalance_spawns_only_missing_actors(init, running, specs);
        let l = lookups.last();
        assert(lookups[lookups.len() - 1] == l);
        let sp = spawn_list(lookups, running, specs);
        let sp0 = spawn_list(init, running, specs);
        assert forall|i: int| 0 <= i < sp.len() implies {
            let e = #[trigger] sp[i];
            &&& !running.contains(e.0)
            &&& cached_spec(specs, e.0) == Some(e.1)
            &&& lookups.contains((e.0, true))
        } by {
            if i < sp0.len() {
                assert(sp[i] == sp0[i]);
                let k = choose|k: int| 0 <= k < init.len() && init[k] == (sp0[i].0, true);
                assert(lookups[k] == init[k]);
            }
        }
        let st = stop_list(lookups, running);
        let st0 = stop_list(init, running);
        assert forall|i: int| 0 <= i < st.len() implies {
            let x = #[trigger] st[i];
            &&& running.contains(x)
            &&& lookups.contains((x, false))
        } by {
            if i < st0.len() {
                assert(st[i] == st0[i]);
                let k = choose|k: int| 0 <= k < init.len() && init[k] == (st0[i], false);
                assert(lookups[k] == init[k]);
            }
        }
    }
}

} // verus!
