//! A verified orchestrator for a multi-transport peer-to-peer node.
//!
//! The node joins a mesh of peers over a reliable stream transport, a
//! UDP-secure transport, and a browser-compatible transport at once. This
//! crate holds the logic worth proving: the durable identity lifecycle, the
//! structured listen-address model, the capability configuration, and the
//! single-threaded event dispatch that keeps the node's view of its own
//! reachability consistent. Socket handling, the underlying protocol
//! implementations, and process wiring live outside.

pub mod addr;
pub mod config;
pub mod identity;
pub mod node;
