use crate::l2::{self, spec_l2_l3, spec_parse_l2, L2Model, L2Packet};
use crate::l3::{self, spec_l3_l4, spec_parse_l3, L3Model, L3Packet, ETHERTYPE_IPV4, ETHERTYPE_IPV6};
use crate::l4::{spec_gre_payload, spec_l4_payload, L4Model, L4Packet};
use crate::wire::spec_be16;
use vstd::prelude::*;

verus! {

/// Why a buffer could not be decoded into a top-level packet.
#[derive(Debug, Clone, Copy, PartialEq, Eq)]
pub enum ParseError {
    /// A GRE header declared a payload protocol that is neither IPv4 nor
    /// IPv6; only those can follow a tunnel.
    InvalidProtocolAfterTunnel,
    /// The link layer failed.
    L2Error(l2::ParseError),
    /// The network layer inside the tunnel failed.
    L3Error(l3::ParseError),
    /// The decoded frame has no network layer.  Never produced by this
    /// decoder: an Ethernet frame always carries one.
    MissingL3,
    /// The decoded frame has no transport layer (ARP is terminal).
    MissingL4,
    /// The GRE header has its routing-present bit set, an explicitly
    /// unsupported feature.
    GreRoutingNotSupported,
}

/// Which header set a derived view is computed from when a tunnel is
/// present.
#[derive(Debug, PartialEq, Eq, Clone, Copy, Structural)]
pub enum HeaderPosition {
    /// The headers inside the tunnel; absent for a regular packet.
    Inner,
    /// The outermost headers, tunnel or not.
    Outer,
    /// The headers inside the tunnel when present, the outer ones otherwise.
    Innermost,
}

/// Ghost shape of a decoded top-level packet.
#[verifier::ext_equal]
pub enum PacketModel {
    Regular(L2Model),
    L3Tunnel(L2Model, L3Model),
}

/// A decoded top-level packet: a plain frame, or a GRE tunnel whose payload
/// is itself a network-layer packet.
#[derive(Debug)]
pub enum Packet<'a> {
    Regular(L2Packet<'a>),
    L3Tunnel(L2Packet<'a>, L3Packet<'a>),
}

impl<'a> View for Packet<'a> {
    type V = PacketModel;

    open spec fn view(&self) -> PacketModel {
        match self {
            Packet::Regular(l2) => PacketModel::Regular(l2@),
            Packet::L3Tunnel(l2, inner) => PacketModel::L3Tunnel(l2@, inner@),
        }
    }
}

/// What decoding a captured buffer yields.  The frame is decoded through its
/// transport layer; when that layer is GRE with the routing-present bit
/// clear and an IPv4 or IPv6 payload protocol, the GRE payload is decoded
/// once more as an inner network-layer packet.
pub open spec fn spec_decode(b: Seq<u8>) -> Result<PacketModel, ParseError> {
    match spec_parse_l2(b) {
        Err(e) => Err(ParseError::L2Error(e)),
        Ok(l2m) => match spec_l3_l4(spec_l2_l3(l2m)) {
            None => Err(ParseError::MissingL4),
            Some(l4m) => match l4m {
                L4Model::Gre(g) => {
                    if (g[0] >> 6) & 1 == 1 {
                        Err(ParseError::GreRoutingNotSupported)
                    } else if spec_be16(g, 2) == ETHERTYPE_IPV4 || spec_be16(g, 2)
                        == ETHERTYPE_IPV6 {
                        match spec_parse_l3(spec_be16(g, 2), spec_gre_payload(g)) {
                            Ok(inner) => Ok(PacketModel::L3Tunnel(l2m, inner)),
                            Err(e) => Err(ParseError::L3Error(e)),
                        }
                    } else {
                        Err(ParseError::InvalidProtocolAfterTunnel)
                    }
                },
                _ => Ok(PacketModel::Regular(l2m)),
            },
        },
    }
}

/// The link layer a position selects; no inner link layer ever exists, as
/// only network-layer tunnels are supported.
pub open spec fn spec_l2_of(m: PacketModel, position: HeaderPosition) -> Option<L2Model> {
    match (position, m) {
        (HeaderPosition::Inner, _) => None,
        (HeaderPosition::Outer, PacketModel::Regular(l2)) => Some(l2),
        (HeaderPosition::Outer, PacketModel::L3Tunnel(l2, _)) => Some(l2),
        (HeaderPosition::Innermost, PacketModel::Regular(l2)) => Some(l2),
        (HeaderPosition::Innermost, PacketModel::L3Tunnel(l2, _)) => Some(l2),
    }
}

/// The network layer a position selects: `Inner` only exists for a tunnel,
/// and `Innermost` prefers the tunnel's inner layer.
pub open spec fn spec_l3_of(m: PacketModel, position: HeaderPosition) -> Option<L3Model> {
    match (position, m) {
        (HeaderPosition::Inner, PacketModel::Regular(_)) => None,
        (HeaderPosition::Inner, PacketModel::L3Tunnel(_, inner)) => Some(inner),
        (HeaderPosition::Outer, PacketModel::Regular(l2)) => Some(spec_l2_l3(l2)),
        (HeaderPosition::Outer, PacketModel::L3Tunnel(l2, _)) => Some(spec_l2_l3(l2)),
        (HeaderPosition::Innermost, PacketModel::Regular(l2)) => Some(spec_l2_l3(l2)),
        (HeaderPosition::Innermost, PacketModel::L3Tunnel(_, inner)) => Some(inner),
    }
}

/// The transport layer a position selects: the one below the selected
/// network layer.
pub open spec fn spec_l4_of(m: PacketModel, position: HeaderPosition) -> Option<L4Model> {
    match spec_l3_of(m, position) {
        None => None,
        Some(l3) => spec_l3_l4(l3),
    }
}

/// The payload of the innermost transport layer.
pub open spec fn spec_payload_of(m: PacketModel) -> Option<Seq<u8>> {
    match spec_l4_of(m, HeaderPosition::Innermost) {
        None => None,
        Some(l4) => Some(spec_l4_payload(l4)),
    }
}

impl<'a> Packet<'a> {
    /// Decodes a captured buffer that begins at an Ethernet header,
    /// resolving one level of GRE tunnelling.
    pub fn try_from(bytes: &'a [u8]) -> (r: Result<Self, ParseError>)
        ensures
            (match r {
                Ok(p) => spec_decode(bytes@) == Ok::<PacketModel, ParseError>(p@),
                Err(e) => spec_decode(bytes@) == Err::<PacketModel, ParseError>(e),
            }),
    {
        let l2 = match L2Packet::try_from(bytes) {
            Ok(l2) => l2,
            Err(e) => {
                return Err(ParseError::L2Error(e));
            },
        };
        let gre = match l2.get_l3() {
            Some(l3) => match l3.get_l4() {
                Some(L4Packet::Gre(g)) => *g,
                Some(_) => {
                    return Ok(Packet::Regular(l2));
                },
                None => {
                    return Err(ParseError::MissingL4);
                },
            },
            None => {
                return Err(ParseError::MissingL3);
            },
        };
        if gre.get_routing_present() == 1 {
            return Err(ParseError::GreRoutingNotSupported);
        }
        let protocol_type = gre.get_protocol_type();
        if protocol_type == ETHERTYPE_IPV4 || protocol_type == ETHERTYPE_IPV6 {
            let inner_buffer = gre.payload();
            match L3Packet::try_from(protocol_type, inner_buffer) {
                Ok(inner) => Ok(Packet::L3Tunnel(l2, inner)),
                Err(e) => Err(ParseError::L3Error(e)),
            }
        } else {
            Err(ParseError::InvalidProtocolAfterTunnel)
        }
    }

    /// The link layer the position selects.
    pub fn get_l2(&self, position: HeaderPosition) -> (r: Option<&L2Packet<'a>>)
        ensures
            (match r {
                Some(l2) => spec_l2_of(self@, position) == Some(l2@),
                None => spec_l2_of(self@, position) is None,
            }),
    {
        match (position, self) {
            (HeaderPosition::Inner, _) => None,
            (HeaderPosition::Outer, Packet::Regular(l2)) => Some(l2),
            (HeaderPosition::Outer, Packet::L3Tunnel(l2, _)) => Some(l2),
            (HeaderPosition::Innermost, Packet::Regular(l2)) => Some(l2),
            (HeaderPosition::Innermost, Packet::L3Tunnel(l2, _)) => Some(l2),
        }
    }

    /// The network layer the position selects.
    pub fn get_l3(&self, position: HeaderPosition) -> (r: Option<&L3Packet<'a>>)
        ensures
            (match r {
                Some(l3) => spec_l3_of(self@, position) == Some(l3@),
                None => spec_l3_of(self@, position) is None,
            }),
    {
        match (position, self) {
            (HeaderPosition::Inner, Packet::Regular(_)) => None,
            (HeaderPosition::Inner, Packet::L3Tunnel(_, inner)) => Some(inner),
            (HeaderPosition::Outer, Packet::Regular(l2)) => l2.get_l3(),
            (HeaderPosition::Outer, Packet::L3Tunnel(l2, _)) => l2.get_l3(),
            (HeaderPosition::Innermost, Packet::Regular(l2)) => l2.get_l3(),
            (HeaderPosition::Innermost, Packet::L3Tunnel(_, inner)) => Some(inner),
        }
    }

    /// The transport layer the position selects: the one below the selected
    /// network layer.
    pub fn get_l4(&self, position: HeaderPosition) -> (r: Option<&L4Packet<'a>>)
        ensures
            (match r {
                Some(l4) => spec_l4_of(self@, position) == Some(l4@),
                None => spec_l4_of(self@, position) is None,
            }),
    {
        match self.get_l3(position) {
            None => None,
            Some(l3) => l3.get_l4(),
        }
    }

    /// The payload of the innermost transport layer.
    pub fn get_payload(&self) -> (r: Option<&[u8]>)
        ensures
            (match r {
                Some(p) => spec_payload_of(self@) == Some(p@),
                None => spec_payload_of(self@) is None,
            }),
    {
        match self.get_l4(HeaderPosition::Innermost) {
            None => None,
            Some(l4) => match l4 {
                L4Packet::Tcp(tcp) => Some(tcp.payload()),
                L4Packet::Udp(udp) => Some(udp.payload()),
                L4Packet::Gre(gre) => Some(gre.payload()),
                L4Packet::Icmp(icmp) => Some(icmp.payload()),
                L4Packet::Icmpv6(icmpv6) => Some(icmpv6.payload()),
            },
        }
    }
}

/// A tunnelled result exists only when the outer transport layer resolved to
/// GRE with the routing-present bit clear and a declared payload protocol of
/// IPv4 or IPv6; the inner layer is then IPv4 or IPv6, never ARP.
pub proof fn lemma_tunnel_invariant(b: Seq<u8>)
    ensures
        (match spec_decode(b) {
            Ok(PacketModel::L3Tunnel(l2m, inner)) => {
                &&& (match spec_l3_l4(spec_l2_l3(l2m)) {
                    Some(L4Model::Gre(g)) => (g[0] >> 6) & 1 != 1 && (spec_be16(g, 2)
                        == ETHERTYPE_IPV4 || spec_be16(g, 2) == ETHERTYPE_IPV6),
                    _ => false,
                })
                &&& (inner is Ipv4 || inner is Ipv6)
            },
            _ => true,
        }),
{
    let r = spec_parse_l2(b);
    if r is Ok {
        let l2m = r->Ok_0;
        match spec_l3_l4(spec_l2_l3(l2m)) {
            Some(L4Model::Gre(g)) => {
                if (g[0] >> 6) & 1 != 1 {
                    let et = spec_be16(g, 2);
                    if et == ETHERTYPE_IPV4 || et == ETHERTYPE_IPV6 {
                        let ir = spec_parse_l3(et, spec_gre_payload(g));
                        if ir is Ok {
                            assert(ir->Ok_0 is Ipv4 || ir->Ok_0 is Ipv6);
                        }
                    }
                }
            },
            _ => {},
        }
    }
}

/// Decoding rejects any buffer shorter than the fixed Ethernet header with
/// the link layer's too-short error; together with `Packet::try_from` being
/// free of preconditions, truncating a capture can never fault, only turn
/// the result into an error.
pub proof fn lemma_short_frame_rejected(b: Seq<u8>)
    requires
        b.len() < 14,
    ensures
        spec_decode(b) == Err::<PacketModel, ParseError>(
            ParseError::L2Error(l2::ParseError::Ethernet),
        ),
{
}

} // verus!
