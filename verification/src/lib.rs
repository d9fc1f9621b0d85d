//! Decision logic of an SSH gateway that binds authenticated users to
//! per-project sandbox containers.

pub mod bridge;
pub mod channel;
pub mod codec;
pub mod commands;
pub mod config;
pub mod control;
pub mod identity;
pub mod order;
pub mod provision;
pub mod sandbox;
pub mod session;
pub mod state;
pub mod stats;
pub mod table;
pub mod text;
pub mod timefmt;
