//! Machine actors and the manager that places them on the nodes that own them.
pub mod messages;
pub mod actor;
pub mod manager;
