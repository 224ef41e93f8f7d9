//! Session and scheduling core of a line-oriented mining proxy gateway.
//!
//! The crate holds the decisions of the gateway as verified functions over
//! plain values: the wire codec, the per-miner session, the budgeted
//! two-queue scheduler, reply handling and the account-directory protocol.
//! Sockets, tasks and timers live with the caller.

pub mod config;
pub mod connection;
pub mod decimal;
pub mod directory;
pub mod framing;
pub mod handlers;
pub mod job;
pub mod json;
pub mod limits;
pub mod message;
pub mod miner;
pub mod params;
pub mod reply;
pub mod scheduler;
pub mod server;
pub mod telemetry;
pub mod validation;
