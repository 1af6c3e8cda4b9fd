use peer_node::config::{
    application_topic, discovery_topic, identify_policy, pubsub_policy, relay_policy,
    ADMISSION_MEMORY_PERCENT, IDENTIFY_INTERVAL_SECS, RELAY_PER_PEER_LIMIT,
};

#[test]
fn pubsub_is_permissive_content_addressed_and_flooding() {
    let p = pubsub_policy();
    assert!(p.permissive_validation);
    assert!(p.content_addressed);
    assert_eq!(p.mesh_outbound_min, 1);
    assert_eq!(p.mesh_n_low, 1);
    assert!(p.flood_publish);
}

#[test]
fn identify_advertises_fixed_version_at_shortened_interval() {
    let p = identify_policy();
    assert_eq!(p.protocol_version, "/ipfs/0.1.0");
    assert_eq!(p.interval_secs, 60);
    assert_eq!(IDENTIFY_INTERVAL_SECS, 60);
}

#[test]
fn relay_caps_per_peer_but_not_aggregate() {
    let p = relay_policy();
    assert_eq!(p.max_reservations_per_peer, 100);
    assert_eq!(p.max_circuits_per_peer, 100);
    assert!(!p.aggregate_capped);
    assert!(!p.rate_limited);
    assert_eq!(RELAY_PER_PEER_LIMIT, 100);
}

#[test]
fn admission_limit_is_ninety_percent() {
    assert_eq!(ADMISSION_MEMORY_PERCENT, 90);
}

#[test]
fn well_known_topics() {
    assert_eq!(discovery_topic(), "dcontact._peer-discovery._p2p._pubsub");
    assert_eq!(application_topic(), "/dContact/3/message/proto");
}
