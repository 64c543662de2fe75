//! How the operator keeps the inventory in etcd: one key per resource under a
//! per-kind prefix, written on every apply and deleted on cleanup.
use vstd::prelude::*;

verus! {

/// Kinds of inventory resources.
#[derive(Clone, Copy, Debug, PartialEq, Eq, Structural)]
pub enum InventoryKind {
    Machine,
    Switch,
    Vlan,
}

/// The etcd prefix of a kind.
pub open spec fn kind_prefix(kind: InventoryKind) -> Seq<char> {
    match kind {
        InventoryKind::Machine => "/neolaas/machines/"@,
        InventoryKind::Switch => "/neolaas/switches/"@,
        InventoryKind::Vlan => "/neolaas/vlans/"@,
    }
}

/// The finalizer the operator puts on resources of a kind.
pub open spec fn kind_finalizer(kind: InventoryKind) -> Seq<char> {
    match kind {
        InventoryKind::Machine => "neolaas.io/machine-finalizer"@,
        InventoryKind::Switch => "neolaas.io/switch-finalizer"@,
        InventoryKind::Vlan => "neolaas.io/vlan-finalizer"@,
    }
}

impl InventoryKind {
    /// The etcd prefix resources of this kind are kept under.
    pub fn prefix(&self) -> (r: &'static str)
        ensures
            r@ == kind_prefix(*self),
    {
        match self {
            InventoryKind::Machine => "/neolaas/machines/",
            InventoryKind::Switch => "/neolaas/switches/",
            InventoryKind::Vlan => "/neolaas/vlans/",
        }
    }

    /// The finalizer of this kind.
    pub fn finalizer(&self) -> (r: &'static str)
        ensures
            r@ == kind_finalizer(*self),
    {
        match self {
            InventoryKind::Machine => "neolaas.io/machine-finalizer",
            InventoryKind::Switch => "neolaas.io/switch-finalizer",
            InventoryKind::Vlan => "neolaas.io/vlan-finalizer",
        }
    }

    /// The etcd key of the resource `name` of this kind.
    pub fn key(&self, name: &str) -> (r: String)
        ensures
            r@ == kind_prefix(*self) + name@,
    {
        String::from_str(self.prefix()).concat(name)
    }
}

/// The etcd key of a machine.
pub fn machine_key(name: &str) -> (r: String)
    ensures
        r@ == kind_prefix(InventoryKind::Machine) + name@,
{
    InventoryKind::Machine.key(name)
}

/// The etcd key of a switch.
pub fn switch_key(name: &str) -> (r: String)
    ensures
        r@ == kind_prefix(InventoryKind::Switch) + name@,
{
    InventoryKind::Switch.key(name)
}

/// The etcd key of a VLAN.
pub fn vlan_key(name: &str) -> (r: String)
    ensures
        r@ == kind_prefix(InventoryKind::Vlan) + name@,
{
    InventoryKind::Vlan.key(name)
}

/// The machine a key under the machines prefix names; a key outside the prefix is taken
/// as the machine id itself.
pub fn machine_id_of_key(key: &str) -> (r: String)
    ensures
        kind_prefix(InventoryKind::Machine).is_prefix_of(key@) ==> r@ == key@.skip(
            kind_prefix(InventoryKind::Machine).len() as int,
        ),
        !kind_prefix(InventoryKind::Machine).is_prefix_of(key@) ==> r@ == key@,
{
    match crate::text::strip_prefix(key, "/neolaas/machines/") {
        Some(rest) => rest,
        None => key.to_string(),
    }
}

/// What the finalizer hands a reconcile.
#[derive(Clone, Copy, Debug, PartialEq, Eq, Structural)]
pub enum FinalizerEvent {
    /// The resource exists: sync it
    Apply,
    /// The resource is being deleted: remove it
    Cleanup,
}

/// What a reconcile does to etcd.
pub enum SyncStep {
    /// Write the resource's spec (as JSON) under the key
    Put { key: String },
    /// Delete the key
    Delete { key: String },
}

/// When the controller looks at the resource again.
#[derive(Clone, Copy, Debug, PartialEq, Eq, Structural)]
pub enum ReconcileAction {
    /// After this many seconds
    Requeue { secs: u64 },
    /// When the resource changes
    AwaitChange,
}

/// The etcd step and follow-up of a reconcile of resource `name`: an apply writes the
/// spec and looks again in five minutes; a cleanup deletes the key and waits for changes.
pub fn reconcile_plan(kind: InventoryKind, name: &str, event: FinalizerEvent) -> (r: (SyncStep, ReconcileAction))
    ensures
        event == FinalizerEvent::Apply ==> r.1 == (ReconcileAction::Requeue { secs: 300 }) && (match r.0 {
            SyncStep::Put { key } => key@ == kind_prefix(kind) + name@,
            _ => false,
        }),
        event == FinalizerEvent::Cleanup ==> r.1 == ReconcileAction::AwaitChange && (match r.0 {
            SyncStep::Delete { key } => key@ == kind_prefix(kind) + name@,
            _ => false,
        }),
{
    let key = kind.key(name);
    match event {
        FinalizerEvent::Apply => (SyncStep::Put { key }, ReconcileAction::Requeue { secs: 300 }),
        FinalizerEvent::Cleanup => (SyncStep::Delete { key }, ReconcileAction::AwaitChange),
    }
}

/// A failed reconcile is retried after a minute.
pub fn error_policy() -> (r: ReconcileAction)
    ensures
        r == (ReconcileAction::Requeue { secs: 60 }),
{
    ReconcileAction::Requeue { secs: 60 }
}

/// Reconciles Machine resources into etcd.
pub struct MachineController;

/// Reconciles Switch resources into etcd.
pub struct SwitchController;

/// Reconciles Vlan resources into etcd.
pub struct VlanController;

impl MachineController {
    pub fn kind() -> (r: InventoryKind)
        ensures
            r == InventoryKind::Machine,
    {
        InventoryKind::Machine
    }
}

impl SwitchController {
    pub fn kind() -> (r: InventoryKind)
        ensures
            r == InventoryKind::Switch,
    {
        InventoryKind::Switch
    }
}

impl VlanController {
    pub fn kind() -> (r: InventoryKind)
        ensures
            r == InventoryKind::Vlan,
    {
        InventoryKind::Vlan
    }
}

/// The etcd key of a resource lock.
pub fn resource_lock_key(resource_type: &str, resource_id: &str) -> (r: String)
    ensures
        r@ == "/neolaas/resource_locks/"@ + resource_type@ + "/"@ + resource_id@,
{
    String::from_str("/neolaas/resource_locks/").concat(resource_type).concat("/").concat(resource_id)
}

/// Distributed locking of resources through etcd leases.
pub struct ResourceUtils;

} // verus!
