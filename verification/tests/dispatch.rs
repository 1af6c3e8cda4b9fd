use peer_node::addr::{listen_addr_tcp, Addr, AddrPart, Ip, PeerId};
use peer_node::node::{
    confirm_bound, Action, Event, NodeState, TransportKind, TICK_INTERVAL_SECS,
};

fn fresh_state(external_ip: Option<Ip>) -> NodeState {
    NodeState::new(PeerId { bytes: vec![0xAB; 4] }, external_ip)
}

fn observed_addr(tag: u32) -> Addr {
    Addr { parts: vec![AddrPart::Ip4(tag), AddrPart::Tcp(4001)] }
}

#[test]
fn message_on_unseen_topic_triggers_subscribe() {
    let mut st = fresh_state(None);
    let acts = st.step(Event::PubsubMessage { topic: "never-seen-before".to_owned() });
    assert_eq!(acts, vec![Action::Subscribe { topic: "never-seen-before".to_owned() }]);
}

#[test]
fn message_on_well_known_topic_triggers_subscribe_too() {
    let mut st = fresh_state(None);
    let topic = peer_node::config::discovery_topic();
    let acts = st.step(Event::PubsubMessage { topic: topic.clone() });
    assert_eq!(acts, vec![Action::Subscribe { topic }]);
}

#[test]
fn subscription_notification_registers_explicit_peer() {
    let mut st = fresh_state(None);
    let peer = PeerId { bytes: vec![1, 2] };
    let acts = st.step(Event::PubsubSubscribed {
        peer: PeerId { bytes: vec![1, 2] },
        topic: "anything".to_owned(),
    });
    assert_eq!(acts, vec![Action::AddExplicitPeer { peer }]);
}

#[test]
fn duplicate_subscription_notifications_register_once_each() {
    let mut st = fresh_state(None);
    for _ in 0..2 {
        let acts = st.step(Event::PubsubSubscribed {
            peer: PeerId { bytes: vec![3] },
            topic: "t".to_owned(),
        });
        assert_eq!(acts.len(), 1);
        assert!(matches!(acts[0], Action::AddExplicitPeer { .. }));
    }
}

#[test]
fn observed_address_lands_in_external_set() {
    let mut st = fresh_state(None);
    let acts = st.step(Event::IdentifyReceived {
        peer: PeerId { bytes: vec![7] },
        observed: observed_addr(11),
    });
    assert_eq!(acts, vec![Action::RegisterExternal { addr: observed_addr(11) }]);
    assert!(st.external_snapshot().contains(&observed_addr(11)));
}

#[test]
fn observed_address_already_present_is_no_error() {
    let mut st = fresh_state(None);
    for _ in 0..2 {
        st.step(Event::IdentifyReceived {
            peer: PeerId { bytes: vec![7] },
            observed: observed_addr(11),
        });
    }
    assert!(st.external_snapshot().contains(&observed_addr(11)));
}

#[test]
fn tick_rearms_timer_at_fixed_interval() {
    let mut st = fresh_state(None);
    let acts = st.step(Event::Tick);
    assert_eq!(
        acts,
        vec![Action::RearmTimer { seconds: TICK_INTERVAL_SECS }, Action::ReportExternal]
    );
    assert_eq!(TICK_INTERVAL_SECS, 15);
}

#[test]
fn bursts_of_other_events_do_not_touch_the_timer() {
    let mut st = fresh_state(None);
    let burst = vec![
        Event::ConnectionEstablished { peer: PeerId { bytes: vec![1] } },
        Event::OutgoingConnectionError,
        Event::IncomingConnectionError,
        Event::ConnectionClosed { peer: PeerId { bytes: vec![1] } },
        Event::RelayEvent,
        Event::HolePunchEvent,
        Event::IdentifyTimeout { peer: PeerId { bytes: vec![1] } },
        Event::IdentifyOther,
        Event::Other,
    ];
    for event in burst {
        let acts = st.step(event);
        assert!(acts.iter().all(|a| !matches!(a, Action::RearmTimer { .. })));
        assert!(acts.is_empty());
    }
}

#[test]
fn new_listen_addr_with_override_registers_rewritten_address() {
    let mut st = fresh_state(Some(Ip::V4(0x7F000001)));
    let bound = listen_addr_tcp(Ip::V4(0));
    let acts = st.step(Event::NewListenAddr { addr: listen_addr_tcp(Ip::V4(0)) });
    let rewritten = Addr { parts: vec![AddrPart::Ip4(0x7F000001), AddrPart::Tcp(1234)] };
    let announced = bound.with_peer(&PeerId { bytes: vec![0xAB; 4] });
    assert_eq!(
        acts,
        vec![
            Action::RegisterExternal { addr: rewritten.clone() },
            Action::AnnounceListen { addr: announced },
        ]
    );
    assert!(st.external_snapshot().contains(&rewritten));
}

#[test]
fn new_listen_addr_without_override_only_announces() {
    let mut st = fresh_state(None);
    let acts = st.step(Event::NewListenAddr { addr: listen_addr_tcp(Ip::V4(0)) });
    assert_eq!(acts.len(), 1);
    assert!(matches!(acts[0], Action::AnnounceListen { .. }));
    assert!(st.external_snapshot().is_empty());
}

#[test]
fn startup_proceeds_only_when_all_three_binds_succeed() {
    assert!(confirm_bound(true, true, true).is_ok());
    for (tcp, webrtc, quic) in [
        (false, true, true),
        (true, false, true),
        (true, true, false),
        (false, false, true),
        (false, true, false),
        (true, false, false),
        (false, false, false),
    ] {
        assert!(confirm_bound(tcp, webrtc, quic).is_err());
    }
}

#[test]
fn startup_reports_first_failing_transport() {
    assert_eq!(confirm_bound(false, true, true).unwrap_err().failed, TransportKind::Tcp);
    assert_eq!(confirm_bound(true, false, true).unwrap_err().failed, TransportKind::WebRtc);
    assert_eq!(confirm_bound(true, true, false).unwrap_err().failed, TransportKind::Quic);
}
