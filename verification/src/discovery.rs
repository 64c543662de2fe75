//! Peer discovery: the etcd-backed protocol that registers this node, converges on the
//! peer set, and follows its changes.
pub mod identity;
pub mod etcd;
pub mod phases;
pub mod controller;
pub mod registry;
pub mod endpoints;
