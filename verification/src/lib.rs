use vstd::prelude::*;

pub mod api;

pub mod clock;
pub mod config;
pub mod crds;
pub mod discovery;
pub mod health;
pub mod inventory;
pub mod machines;
pub mod models;
pub mod peers;
pub mod sharding;
pub mod text;
