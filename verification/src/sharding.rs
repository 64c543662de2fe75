//! Assignment of machine ids to cluster nodes by consistent hashing.
pub mod permutation;
pub mod hashing;
pub mod maglev;
pub mod rendezvous;
pub mod messages;
pub mod coordinator;
