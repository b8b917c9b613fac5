//! Composition core of a peer-to-peer node: the static address table, the
//! randomized discovery scheduler, and the mapping of every sub-protocol's
//! output onto one ordered stream of events.
//!
//! The sub-protocols themselves (liveness, messaging, DHT, peer-info
//! exchange, local broadcast) are services driven from outside; this crate
//! decides what to tell them, and what to report, through explicit actions.

pub mod behaviour;
pub mod discovery;
pub mod events;
pub mod types;
