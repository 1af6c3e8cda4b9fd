//! The orchestrator's event loop, as a pure reaction table.
//!
//! The node runs a single logical task that waits for the next transport or
//! protocol event, or the periodic timer, whichever is ready first, and
//! dispatches on it to completion before reading the next one. The dispatch
//! itself decides everything; the surrounding loop only performs the actions
//! it hands back. State owned here: the monotonically growing set of
//! addresses at which the node believes it is reachable from outside.

use crate::addr::ip_part;
use crate::addr::Addr;
use crate::addr::AddrPartV;
use crate::addr::Ip;
use crate::addr::PeerId;
use vstd::prelude::*;

verus! {

/// Seconds between firings of the periodic housekeeping timer.
pub const TICK_INTERVAL_SECS: u64 = 15;

/// One event observed by the orchestrator: a transport or protocol event,
/// or the periodic timer.
#[derive(Clone, Debug, PartialEq, Eq)]
pub enum Event {
    /// A local listen address is ready.
    NewListenAddr { addr: Addr },
    /// An outbound or inbound connection to this peer completed.
    ConnectionEstablished { peer: PeerId },
    /// An outbound connection attempt failed; never retried here.
    OutgoingConnectionError,
    /// An inbound connection attempt failed.
    IncomingConnectionError,
    /// An existing connection closed; no bookkeeping is evicted.
    ConnectionClosed { peer: PeerId },
    /// The relay service reported something; observability only.
    RelayEvent,
    /// The hole-punch coordinator reported something; observability only.
    HolePunchEvent,
    /// A pubsub message arrived, tagged with this topic name.
    PubsubMessage { topic: String },
    /// A remote peer subscribed to a topic.
    PubsubSubscribed { peer: PeerId, topic: String },
    /// A remote peer identified us and reports observing us at this address.
    IdentifyReceived { peer: PeerId, observed: Addr },
    /// Identification with a peer timed out; nothing is evicted.
    IdentifyTimeout { peer: PeerId },
    /// Any other identification event; observability only.
    IdentifyOther,
    /// The periodic timer fired.
    Tick,
    /// Anything the orchestrator does not react to.
    Other,
}

/// One command the loop must carry out against the underlying node.
#[derive(Clone, Debug, PartialEq, Eq)]
pub enum Action {
    /// Register an address as externally reachable with the underlying node.
    RegisterExternal { addr: Addr },
    /// Announce the full dialable form of a bound listen address.
    AnnounceListen { addr: Addr },
    /// Issue a (re-)subscribe for the topic with this name. Duplicate
    /// subscribes are tolerated as no-ops downstream.
    Subscribe { topic: String },
    /// Register the peer as an explicit pubsub peer, a priority neighbor
    /// for mesh formation. Issued once per notification; duplicates are
    /// idempotent downstream.
    AddExplicitPeer { peer: PeerId },
    /// Rearm the periodic timer for this many seconds.
    RearmTimer { seconds: u64 },
    /// Emit the diagnostic snapshot of the external address set.
    ReportExternal,
}

/// The spec-level value of one command.
pub enum ActionV {
    RegisterExternal(Seq<AddrPartV>),
    AnnounceListen(Seq<AddrPartV>),
    Subscribe(Seq<char>),
    AddExplicitPeer(Seq<u8>),
    RearmTimer(u64),
    ReportExternal,
}

impl View for Action {
    type V = ActionV;

    open spec fn view(&self) -> ActionV {
        match self {
            Action::RegisterExternal { addr } => ActionV::RegisterExternal(addr@),
            Action::AnnounceListen { addr } => ActionV::AnnounceListen(addr@),
            Action::Subscribe { topic } => ActionV::Subscribe(topic@),
            Action::AddExplicitPeer { peer } => ActionV::AddExplicitPeer(peer@),
            Action::RearmTimer { seconds } => ActionV::RearmTimer(*seconds),
            Action::ReportExternal => ActionV::ReportExternal,
        }
    }
}

/// The spec-level value of a command list.
pub open spec fn acts_view(acts: Seq<Action>) -> Seq<ActionV> {
    acts.map_values(|a: Action| a@)
}

/// The orchestrator's own state: who this node is, the operator-supplied
/// external IP if any, and the addresses at which the node believes it is
/// reachable from outside.
#[derive(Clone, Debug, PartialEq, Eq)]
pub struct NodeState {
    /// This node's peer identifier; never changes.
    pub local_peer: PeerId,
    /// Operator-supplied external IP override; never changes.
    pub external_ip: Option<Ip>,
    /// The external address set. Grown only; entries are recorded in
    /// arrival order and never deduplicated here — membership is what the
    /// contracts speak of, and registering a known address downstream is a
    /// no-op.
    pub external_addrs: Vec<Addr>,
}

impl NodeState {
    /// The recorded external addresses, by value.
    pub open spec fn ext_view(self) -> Seq<Seq<AddrPartV>> {
        self.external_addrs@.map_values(|a: Addr| a@)
    }

    /// Whether an address is in the external address set.
    pub open spec fn has_external(self, a: Seq<AddrPartV>) -> bool {
        self.ext_view().contains(a)
    }

    /// A fresh orchestrator state: no external addresses are known yet.
    pub fn new(local_peer: PeerId, external_ip: Option<Ip>) -> (r: NodeState)
        ensures
            r.local_peer@ == local_peer@,
            r.external_ip == external_ip,
            r.ext_view() =~= Seq::<Seq<AddrPartV>>::empty(),
    {
        let r = NodeState { local_peer, external_ip, external_addrs: Vec::new() };
        proof {
            assert(r.ext_view() =~= Seq::<Seq<AddrPartV>>::empty());
        }
        r
    }

    /// A snapshot of the external address set, for diagnostics.
    pub fn external_snapshot(&self) -> (r: &Vec<Addr>)
        ensures
            r@.map_values(|a: Addr| a@) == self.ext_view(),
    {
        &self.external_addrs
    }

    /// React to one event; the returned commands are carried out by the
    /// loop, in order, before the next event is read.
    ///
    /// Every arm leaves the node's identity and override untouched and
    /// never removes an external address. A pubsub message causes exactly
    /// one subscribe for its topic name, well known or newly learned. A
    /// subscription notification causes exactly one explicit-peer
    /// registration. A reported observed address is in the external set
    /// afterward, already known or not. The timer is rearmed on a timer
    /// event, for the same fixed interval, and on no other.
    pub fn step(&mut self, event: Event) -> (acts: Vec<Action>)
        requires
            event matches Event::NewListenAddr { addr } ==> addr@.len() >= 1,
        ensures
            final(self).local_peer@ == old(self).local_peer@,
            final(self).external_ip == old(self).external_ip,
            forall|a: Seq<AddrPartV>|
                old(self).has_external(a) ==> final(self).has_external(a),
            event matches Event::NewListenAddr { addr } ==> {
                &&& acts_view(acts@) =~= (match old(self).external_ip {
                    Some(ip) => seq![
                        ActionV::RegisterExternal(addr@.update(0, ip_part(ip))),
                        ActionV::AnnounceListen(
                            addr@.push(AddrPartV::P2p(old(self).local_peer@)),
                        ),
                    ],
                    None => seq![
                        ActionV::AnnounceListen(
                            addr@.push(AddrPartV::P2p(old(self).local_peer@)),
                        ),
                    ],
                })
                &&& final(self).ext_view() =~= (match old(self).external_ip {
                    Some(ip) => old(self).ext_view().push(addr@.update(0, ip_part(ip))),
                    None => old(self).ext_view(),
                })
            },
            event matches Event::PubsubMessage { topic } ==> {
                &&& acts_view(acts@) =~= seq![ActionV::Subscribe(topic@)]
                &&& final(self).ext_view() =~= old(self).ext_view()
            },
            event matches Event::PubsubSubscribed { peer, topic } ==> {
                &&& acts_view(acts@) =~= seq![ActionV::AddExplicitPeer(peer@)]
                &&& final(self).ext_view() =~= old(self).ext_view()
            },
            event matches Event::IdentifyReceived { peer, observed } ==> {
                &&& acts_view(acts@) =~= seq![ActionV::RegisterExternal(observed@)]
                &&& final(self).ext_view() =~= old(self).ext_view().push(observed@)
                &&& final(self).has_external(observed@)
            },
            event == Event::Tick ==> acts_view(acts@) =~= seq![
                ActionV::RearmTimer(TICK_INTERVAL_SECS),
                ActionV::ReportExternal,
            ],
            (event matches Event::ConnectionEstablished { peer }
                || event matches Event::ConnectionClosed { peer }
                || event matches Event::IdentifyTimeout { peer }) ==> {
                &&& acts_view(acts@) =~= Seq::<ActionV>::empty()
                &&& final(self).ext_view() =~= old(self).ext_view()
            },
            (event == Event::OutgoingConnectionError || event == Event::IncomingConnectionError
                || event == Event::RelayEvent || event == Event::HolePunchEvent
                || event == Event::IdentifyOther || event == Event::Other) ==> {
                &&& acts_view(acts@) =~= Seq::<ActionV>::empty()
                &&& final(self).ext_view() =~= old(self).ext_view()
            },
            event == Event::Tick ==> final(self).ext_view() =~= old(self).ext_view(),
    {
        let mut acts: Vec<Action> = Vec::new();
        match event {
            Event::NewListenAddr { addr } => {
                let announced = addr.with_peer(&self.local_peer);
                match self.external_ip {
                    Some(ip) => {
                        let external = addr.with_ip_override(ip);
                        let ghost ext_v = external@;
                        let registered = external.dup();
                        self.external_addrs.push(external);
                        acts.push(Action::RegisterExternal { addr: registered });
                        acts.push(Action::AnnounceListen { addr: announced });
                        proof {
                            assert(self.ext_view() =~= old(self).ext_view().push(ext_v));
                            lemma_push_keeps_members(old(self).ext_view(), ext_v);
                        }
                    },
                    None => {
                        acts.push(Action::AnnounceListen { addr: announced });
                    },
                }
            },
            Event::PubsubMessage { topic } => {
                acts.push(Action::Subscribe { topic });
            },
            Event::PubsubSubscribed { peer, topic: _ } => {
                acts.push(Action::AddExplicitPeer { peer });
            },
            Event::IdentifyReceived { peer: _, observed } => {
                let ghost obs_v = observed@;
                let registered = observed.dup();
                self.external_addrs.push(observed);
                acts.push(Action::RegisterExternal { addr: registered });
                proof {
                    assert(self.ext_view() =~= old(self).ext_view().push(obs_v));
                    lemma_push_keeps_members(old(self).ext_view(), obs_v);
                    assert(self.ext_view()[self.ext_view().len() - 1] == obs_v);
                    assert(self.has_external(obs_v));
                }
            },
            Event::Tick => {
                acts.push(Action::RearmTimer { seconds: TICK_INTERVAL_SECS });
                acts.push(Action::ReportExternal);
            },
            _ => {},
        }
        acts
    }
}

/// Appending to a sequence keeps every member: each old member is still at
/// its old index.
proof fn lemma_push_keeps_members(s: Seq<Seq<AddrPartV>>, x: Seq<AddrPartV>)
    ensures
        forall|a: Seq<AddrPartV>| s.contains(a) ==> #[trigger] s.push(x).contains(a),
{
    assert forall|a: Seq<AddrPartV>| s.contains(a) implies #[trigger] s.push(x).contains(a) by {
        let i = choose|i: int| 0 <= i < s.len() && s[i] == a;
        assert(s.push(x)[i] == a);
    }
}

/// Which transport a startup step concerns.
#[derive(Clone, Copy, PartialEq, Eq, Structural, Debug)]
pub enum TransportKind {
    /// The reliable stream transport.
    Tcp,
    /// The browser-compatible transport.
    WebRtc,
    /// The UDP-secure transport.
    Quic,
}

/// A fatal startup failure: one of the three listen addresses could not be
/// bound.
#[derive(Clone, Copy, PartialEq, Eq, Structural, Debug)]
pub struct StartupError {
    /// The first transport whose bind failed, in the order the binds are
    /// attempted: stream, browser-compatible, UDP-secure.
    pub failed: TransportKind,
}

/// Whether the node may enter its event loop: it may exactly when all three
/// listen-address binds succeeded. Any bind failure aborts startup, and the
/// first failing transport is reported.
pub fn confirm_bound(tcp_ok: bool, webrtc_ok: bool, quic_ok: bool) -> (r: Result<
    (),
    StartupError,
>)
    ensures
        r is Ok <==> (tcp_ok && webrtc_ok && quic_ok),
        !tcp_ok ==> r == Err::<(), StartupError>(StartupError { failed: TransportKind::Tcp }),
        (tcp_ok && !webrtc_ok) ==> r == Err::<(), StartupError>(
            StartupError { failed: TransportKind::WebRtc },
        ),
        (tcp_ok && webrtc_ok && !quic_ok) ==> r == Err::<(), StartupError>(
            StartupError { failed: TransportKind::Quic },
        ),
{
    if !tcp_ok {
        Err(StartupError { failed: TransportKind::Tcp })
    } else if !webrtc_ok {
        Err(StartupError { failed: TransportKind::WebRtc })
    } else if !quic_ok {
        Err(StartupError { failed: TransportKind::Quic })
    } else {
        Ok(())
    }
}

} // verus!
