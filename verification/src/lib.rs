//! Session registry and snapshot-distribution core of a realtime
//! telemetry/chat server.
//!
//! The server samples host metrics on a fixed cadence, merges per-client
//! state (display names, pending chat messages) into one immutable snapshot
//! per tick, and fans that snapshot out to every connected client at its own
//! pace.  This crate holds the verified core: the session registry, the
//! inbound message queue, the snapshot assembly step, the latest-wins
//! fan-out hub, and the per-session reader/writer step logic.  Metrics
//! sampling, JSON framing, and socket I/O are collaborators supplied by the
//! surrounding application.

pub mod data;
pub mod hub;
pub mod inbox;
pub mod producer;
pub mod registry;
pub mod session;
