//! Peer lifecycle and pairing core of a peer-to-peer overlay.
//!
//! The registry of known peers, the pairing state machine and the routing
//! decisions are pure transitions on plain values: each event handler returns
//! the action that the surrounding runtime must carry out (which application
//! hook to run, with what data), after the registry has been updated.
pub mod hooks;
pub mod laws;
pub mod manager;
pub mod node;
pub mod peer;
pub mod platform;
pub mod registry;
pub mod tag;
