//! Structured multi-protocol addresses.
//!
//! A listen or dial address is a sequence of components: an IP component
//! first, then transport-specific components, optionally ending in a peer
//! identifier. Three listen addresses are built at startup, one per
//! transport, on fixed ports.

use vstd::prelude::*;

verus! {

/// Port of the reliable stream transport.
pub const PORT_TCP: u16 = 1234;

/// Port of the browser-compatible transport (UDP).
pub const PORT_WEBRTC: u16 = 9090;

/// Port of the UDP-secure transport.
pub const PORT_QUIC: u16 = 9091;

/// An IP address: the 32-bit value of an IPv4 address or the 128-bit value
/// of an IPv6 address.
#[derive(Clone, Copy, PartialEq, Eq, Structural, Debug)]
pub enum Ip {
    V4(u32),
    V6(u128),
}

/// A peer identifier: the fixed-length value derived from a node's public
/// key, used to address the node across all transports.
#[derive(Clone, Debug, PartialEq, Eq)]
pub struct PeerId {
    pub bytes: Vec<u8>,
}

impl View for PeerId {
    type V = Seq<u8>;

    open spec fn view(&self) -> Seq<u8> {
        self.bytes@
    }
}

/// One component of a structured multi-protocol address.
#[derive(Clone, Debug, PartialEq, Eq)]
pub enum AddrPart {
    Ip4(u32),
    Ip6(u128),
    Tcp(u16),
    Udp(u16),
    WebRtcDirect,
    QuicV1,
    P2p(PeerId),
    /// Any component the orchestrator does not interpret, in textual form.
    Other(String),
}

/// The spec-level value of one address component.
pub enum AddrPartV {
    Ip4(u32),
    Ip6(u128),
    Tcp(u16),
    Udp(u16),
    WebRtcDirect,
    QuicV1,
    P2p(Seq<u8>),
    Other(Seq<char>),
}

impl View for AddrPart {
    type V = AddrPartV;

    open spec fn view(&self) -> AddrPartV {
        match self {
            AddrPart::Ip4(a) => AddrPartV::Ip4(*a),
            AddrPart::Ip6(a) => AddrPartV::Ip6(*a),
            AddrPart::Tcp(p) => AddrPartV::Tcp(*p),
            AddrPart::Udp(p) => AddrPartV::Udp(*p),
            AddrPart::WebRtcDirect => AddrPartV::WebRtcDirect,
            AddrPart::QuicV1 => AddrPartV::QuicV1,
            AddrPart::P2p(id) => AddrPartV::P2p(id@),
            AddrPart::Other(s) => AddrPartV::Other(s@),
        }
    }
}

/// A structured multi-protocol address.
#[derive(Clone, Debug, PartialEq, Eq)]
pub struct Addr {
    pub parts: Vec<AddrPart>,
}

impl View for Addr {
    type V = Seq<AddrPartV>;

    open spec fn view(&self) -> Seq<AddrPartV> {
        self.parts@.map_values(|p: AddrPart| p@)
    }
}

/// The spec-level IP component standing for an IP address.
pub open spec fn ip_part(ip: Ip) -> AddrPartV {
    match ip {
        Ip::V4(a) => AddrPartV::Ip4(a),
        Ip::V6(a) => AddrPartV::Ip6(a),
    }
}

/// An identical copy of a byte string.
pub fn clone_bytes(b: &Vec<u8>) -> (r: Vec<u8>)
    ensures
        r@ == b@,
{
    let mut r: Vec<u8> = Vec::new();
    let mut i: usize = 0;
    while i < b.len()
        invariant
            i <= b.len(),
            r@.len() == i,
            forall|j: int| 0 <= j < i ==> r@[j] == b@[j],
        decreases b.len() - i,
    {
        r.push(b[i]);
        i = i + 1;
    }
    proof {
        assert(r@ =~= b@);
    }
    r
}

impl PeerId {
    /// An identical copy of this peer identifier.
    pub fn dup(&self) -> (r: PeerId)
        ensures
            r@ == self@,
    {
        PeerId { bytes: clone_bytes(&self.bytes) }
    }
}

impl AddrPart {
    /// An identical copy of this component.
    pub fn dup(&self) -> (r: AddrPart)
        ensures
            r@ == self@,
    {
        match self {
            AddrPart::Ip4(a) => AddrPart::Ip4(*a),
            AddrPart::Ip6(a) => AddrPart::Ip6(*a),
            AddrPart::Tcp(p) => AddrPart::Tcp(*p),
            AddrPart::Udp(p) => AddrPart::Udp(*p),
            AddrPart::WebRtcDirect => AddrPart::WebRtcDirect,
            AddrPart::QuicV1 => AddrPart::QuicV1,
            AddrPart::P2p(id) => AddrPart::P2p(id.dup()),
            AddrPart::Other(s) => AddrPart::Other(s.clone()),
        }
    }
}

/// The exec component standing for an IP address.
pub fn ip_to_part(ip: Ip) -> (r: AddrPart)
    ensures
        r@ == ip_part(ip),
{
    match ip {
        Ip::V4(a) => AddrPart::Ip4(a),
        Ip::V6(a) => AddrPart::Ip6(a),
    }
}

impl Addr {
    /// An identical copy of this address.
    pub fn dup(&self) -> (r: Addr)
        ensures
            r@ == self@,
    {
        let mut parts: Vec<AddrPart> = Vec::new();
        let mut i: usize = 0;
        while i < self.parts.len()
            invariant
                i <= self.parts.len(),
                parts@.len() == i,
                forall|j: int| 0 <= j < i ==> parts@[j]@ == self.parts@[j]@,
            decreases self.parts.len() - i,
        {
            parts.push(self.parts[i].dup());
            i = i + 1;
        }
        let r = Addr { parts };
        proof {
            assert(r@ =~= self@);
        }
        r
    }

    /// The same address with its first component replaced by the given IP.
    ///
    /// When an operator supplies an external IP, each bound listen address is
    /// rewritten this way before it is advertised: the override becomes the
    /// first component and every later component is kept unchanged.
    pub fn with_ip_override(&self, ip: Ip) -> (r: Addr)
        requires
            self@.len() >= 1,
        ensures
            r@ =~= self@.update(0, ip_part(ip)),
    {
        let mut parts: Vec<AddrPart> = Vec::new();
        parts.push(ip_to_part(ip));
        let mut i: usize = 1;
        while i < self.parts.len()
            invariant
                1 <= i <= self.parts.len(),
                parts@.len() == i,
                parts@[0]@ == ip_part(ip),
                forall|j: int| 1 <= j < i ==> parts@[j]@ == self.parts@[j]@,
            decreases self.parts.len() - i,
        {
            parts.push(self.parts[i].dup());
            i = i + 1;
        }
        let r = Addr { parts };
        proof {
            assert(r@ =~= self@.update(0, ip_part(ip)));
        }
        r
    }

    /// The address with a peer identifier appended: the full dialable form
    /// that is announced for a bound listen address.
    pub fn with_peer(&self, peer: &PeerId) -> (r: Addr)
        ensures
            r@ =~= self@.push(AddrPartV::P2p(peer@)),
    {
        let mut r = self.dup();
        r.parts.push(AddrPart::P2p(peer.dup()));
        proof {
            assert(r@ =~= self@.push(AddrPartV::P2p(peer@)));
        }
        r
    }
}

/// The stream-transport listen address: the IP followed by the fixed TCP
/// port.
pub fn listen_addr_tcp(ip: Ip) -> (r: Addr)
    ensures
        r@ =~= seq![ip_part(ip), AddrPartV::Tcp(PORT_TCP)],
{
    let mut parts: Vec<AddrPart> = Vec::new();
    parts.push(ip_to_part(ip));
    parts.push(AddrPart::Tcp(PORT_TCP));
    let r = Addr { parts };
    proof {
        assert(r@ =~= seq![ip_part(ip), AddrPartV::Tcp(PORT_TCP)]);
    }
    r
}

/// The browser-compatible-transport listen address: the IP, the fixed UDP
/// port, and the transport marker.
pub fn listen_addr_webrtc(ip: Ip) -> (r: Addr)
    ensures
        r@ =~= seq![ip_part(ip), AddrPartV::Udp(PORT_WEBRTC), AddrPartV::WebRtcDirect],
{
    let mut parts: Vec<AddrPart> = Vec::new();
    parts.push(ip_to_part(ip));
    parts.push(AddrPart::Udp(PORT_WEBRTC));
    parts.push(AddrPart::WebRtcDirect);
    let r = Addr { parts };
    proof {
        assert(r@ =~= seq![ip_part(ip), AddrPartV::Udp(PORT_WEBRTC), AddrPartV::WebRtcDirect]);
    }
    r
}

/// The UDP-secure-transport listen address: the IP, the fixed UDP port, and
/// the transport marker.
pub fn listen_addr_quic(ip: Ip) -> (r: Addr)
    ensures
        r@ =~= seq![ip_part(ip), AddrPartV::Udp(PORT_QUIC), AddrPartV::QuicV1],
{
    let mut parts: Vec<AddrPart> = Vec::new();
    parts.push(ip_to_part(ip));
    parts.push(AddrPart::Udp(PORT_QUIC));
    parts.push(AddrPart::QuicV1);
    let r = Addr { parts };
    proof {
        assert(r@ =~= seq![ip_part(ip), AddrPartV::Udp(PORT_QUIC), AddrPartV::QuicV1]);
    }
    r
}

} // verus!
