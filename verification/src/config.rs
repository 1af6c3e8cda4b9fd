//! The capability set's configuration policy.
//!
//! The node attaches a fixed bundle of protocol handlers — keepalive
//! probing, hole-punch coordination, publish/subscribe, peer
//! identification, relay service, inbound admission limiting. The protocol
//! logic itself is the underlying library's; what is decided here, and
//! pinned by contract, is how each handler is configured.

use vstd::prelude::*;

verus! {

/// Reservations and circuits the relay service grants any single peer.
pub const RELAY_PER_PEER_LIMIT: u64 = 100;

/// Share of the configured memory budget that inbound connections may use
/// before further inbound connections are rejected, in percent.
pub const ADMISSION_MEMORY_PERCENT: u64 = 90;

/// Seconds between address announcements of the identification handler;
/// shortened from the default so dead browser-transport connections, which
/// have no native keepalive, are detected by timeout.
pub const IDENTIFY_INTERVAL_SECS: u64 = 60;

/// How the publish/subscribe handler is configured.
#[derive(Clone, Copy, PartialEq, Eq, Structural, Debug)]
pub struct PubsubPolicy {
    /// Malformed or unsigned messages are logged, never rejected outright,
    /// to interoperate with lightweight browser peers.
    pub permissive_validation: bool,
    /// A message is identified by the content hash of its payload, not a
    /// per-publisher sequence number: byte-identical payloads from two
    /// publishers count as one delivery.
    pub content_addressed: bool,
    /// Lower bound on outbound mesh links, the minimum viable value so
    /// small meshes stay connected.
    pub mesh_outbound_min: u64,
    /// Lower bound on the mesh degree.
    pub mesh_n_low: u64,
    /// Messages are eagerly flooded to the whole known peer set, not only
    /// the mesh.
    pub flood_publish: bool,
}

/// The pubsub configuration this node runs with.
pub fn pubsub_policy() -> (r: PubsubPolicy)
    ensures
        r == (PubsubPolicy {
            permissive_validation: true,
            content_addressed: true,
            mesh_outbound_min: 1,
            mesh_n_low: 1,
            flood_publish: true,
        }),
{
    PubsubPolicy {
        permissive_validation: true,
        content_addressed: true,
        mesh_outbound_min: 1,
        mesh_n_low: 1,
        flood_publish: true,
    }
}

/// How the peer identification handler is configured.
#[derive(Debug, PartialEq, Eq)]
pub struct IdentifyPolicy {
    /// The protocol-version string advertised to every peer.
    pub protocol_version: String,
    /// Seconds between address announcements.
    pub interval_secs: u64,
}

/// The identification configuration this node runs with.
pub fn identify_policy() -> (r: IdentifyPolicy)
    ensures
        r.protocol_version@ == "/ipfs/0.1.0"@,
        r.interval_secs == IDENTIFY_INTERVAL_SECS,
{
    IdentifyPolicy { protocol_version: "/ipfs/0.1.0".to_owned(), interval_secs: IDENTIFY_INTERVAL_SECS }
}

/// How the relay service is configured: per-peer caps, no aggregate cap and
/// no rate limiting — a deliberate openness tradeoff for a supernode role.
#[derive(Clone, Copy, PartialEq, Eq, Structural, Debug)]
pub struct RelayPolicy {
    /// Reservations granted to any single peer.
    pub max_reservations_per_peer: u64,
    /// Circuits granted to any single peer.
    pub max_circuits_per_peer: u64,
    /// Whether reservations and circuits are capped in aggregate.
    pub aggregate_capped: bool,
    /// Whether reservation or circuit creation is rate limited.
    pub rate_limited: bool,
}

/// The relay configuration this node runs with.
pub fn relay_policy() -> (r: RelayPolicy)
    ensures
        r == (RelayPolicy {
            max_reservations_per_peer: RELAY_PER_PEER_LIMIT,
            max_circuits_per_peer: RELAY_PER_PEER_LIMIT,
            aggregate_capped: false,
            rate_limited: false,
        }),
{
    RelayPolicy {
        max_reservations_per_peer: RELAY_PER_PEER_LIMIT,
        max_circuits_per_peer: RELAY_PER_PEER_LIMIT,
        aggregate_capped: false,
        rate_limited: false,
    }
}

/// The well-known discovery topic name, joined at startup.
pub fn discovery_topic() -> (r: String)
    ensures
        r@ == "dcontact._peer-discovery._p2p._pubsub"@,
{
    "dcontact._peer-discovery._p2p._pubsub".to_owned()
}

/// The well-known application-message topic name.
pub fn application_topic() -> (r: String)
    ensures
        r@ == "/dContact/3/message/proto"@,
{
    "/dContact/3/message/proto".to_owned()
}

} // verus!
