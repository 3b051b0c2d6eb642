use crate::l3_extensions::ipv4_options::{spec_ipv4_options, Ipv4OptionsIterator};
use crate::l3_extensions::ipv6_extensions::{
    self, spec_walk_extensions, Ipv6Extensions, Ipv6ExtensionsModel,
};
use crate::l4::{self, spec_parse_l4, L4Model, L4Packet};
use crate::wire::{be16, spec_be16};
use vstd::prelude::*;
use vstd::slice::slice_subrange;

verus! {

/// Ethertypes recognised by the network-layer decoder.
pub const ETHERTYPE_IPV4: u16 = 0x0800;

pub const ETHERTYPE_ARP: u16 = 0x0806;

pub const ETHERTYPE_IPV6: u16 = 0x86DD;

/// Why a byte window could not be decoded as a network layer.
#[derive(Debug, Clone, Copy, PartialEq, Eq)]
pub enum ParseError {
    /// Too short for the fixed IPv4 header, or the header-length field
    /// claims less than the fixed header or more bytes than are available.
    IPv4,
    /// Too short for the fixed 40-byte IPv6 header.
    IPv6,
    /// Too short for the fixed 28-byte ARP message.
    Arp,
    /// The transport layer below failed.
    L4Error(l4::ParseError),
    /// The IPv6 extension chain failed structural validation.
    Ipv6ExtensionError(ipv6_extensions::ParseError),
    /// The ethertype matches no supported network protocol.
    UnknownL3Protocol,
}

/// A network address held as plain bytes, in wire order.
#[derive(Debug, Clone, Copy, PartialEq, Eq, Hash)]
pub enum IpAddress {
    V4([u8; 4]),
    V6([u8; 16]),
}

/// Ghost shape of a network address.
#[verifier::ext_equal]
pub enum IpAddressModel {
    V4(Seq<u8>),
    V6(Seq<u8>),
}

impl View for IpAddress {
    type V = IpAddressModel;

    open spec fn view(&self) -> IpAddressModel {
        match self {
            IpAddress::V4(a) => IpAddressModel::V4(a@),
            IpAddress::V6(a) => IpAddressModel::V6(a@),
        }
    }
}

/// The IPv4 header length in bytes that the header-length field declares.
pub open spec fn spec_ipv4_header_len(s: Seq<u8>) -> int
    recommends
        s.len() >= 20,
{
    4 * ((s[0] & 0x0f) as int)
}

/// The window holding the IPv4 options: from byte 20 up to the end of the
/// declared header, clamped to the captured data.
pub open spec fn spec_ipv4_options_window(s: Seq<u8>) -> Seq<u8>
    recommends
        s.len() >= 20,
{
    let hl = spec_ipv4_header_len(s);
    let end = if hl < 20 {
        20int
    } else if hl > s.len() {
        s.len() as int
    } else {
        hl
    };
    s.subrange(20, end)
}

/// Zero-copy view of an IPv4 packet: the window from the first byte of the
/// IPv4 header to the end of the captured data.  Its declared header length
/// covers at least the fixed header and no more bytes than the window holds.
#[derive(Clone, Copy, Debug)]
pub struct Ipv4Packet<'a> {
    bytes: &'a [u8],
}

impl<'a> View for Ipv4Packet<'a> {
    type V = Seq<u8>;

    closed spec fn view(&self) -> Seq<u8> {
        self.bytes@
    }
}

impl<'a> Ipv4Packet<'a> {
    #[verifier::type_invariant]
    spec fn wf(self) -> bool {
        &&& self.bytes@.len() >= 20
        &&& 20 <= spec_ipv4_header_len(self.bytes@) <= self.bytes@.len()
    }

    /// Version field.
    pub fn get_version(&self) -> (r: u8)
        ensures
            r == self@[0] >> 4,
    {
        proof {
            use_type_invariant(&*self);
        }
        self.bytes[0] >> 4
    }

    /// Header length in 32-bit words.
    pub fn get_header_length(&self) -> (r: u8)
        ensures
            r == self@[0] & 0x0f,
    {
        proof {
            use_type_invariant(&*self);
        }
        self.bytes[0] & 0x0f
    }

    /// Total length field: header plus data, in bytes.
    pub fn get_total_length(&self) -> (r: u16)
        ensures
            r == spec_be16(self@, 2),
    {
        proof {
            use_type_invariant(&*self);
        }
        be16(self.bytes, 2)
    }

    /// Identification field.
    pub fn get_identification(&self) -> (r: u16)
        ensures
            r == spec_be16(self@, 4),
    {
        proof {
            use_type_invariant(&*self);
        }
        be16(self.bytes, 4)
    }

    /// Time to live.
    pub fn get_ttl(&self) -> (r: u8)
        ensures
            r == self@[8],
    {
        proof {
            use_type_invariant(&*self);
        }
        self.bytes[8]
    }

    /// The transport protocol number the header declares.
    pub fn get_next_level_protocol(&self) -> (r: u8)
        ensures
            r == self@[9],
    {
        proof {
            use_type_invariant(&*self);
        }
        self.bytes[9]
    }

    /// Header checksum.
    pub fn get_checksum(&self) -> (r: u16)
        ensures
            r == spec_be16(self@, 10),
    {
        proof {
            use_type_invariant(&*self);
        }
        be16(self.bytes, 10)
    }

    /// Source address bytes.
    pub fn get_source(&self) -> (r: [u8; 4])
        ensures
            r@ == self@.subrange(12, 16),
    {
        proof {
            use_type_invariant(&*self);
        }
        let r = [self.bytes[12], self.bytes[13], self.bytes[14], self.bytes[15]];
        proof {
            assert(r@ =~= self@.subrange(12, 16));
        }
        r
    }

    /// Destination address bytes.
    pub fn get_destination(&self) -> (r: [u8; 4])
        ensures
            r@ == self@.subrange(16, 20),
    {
        proof {
            use_type_invariant(&*self);
        }
        let r = [self.bytes[16], self.bytes[17], self.bytes[18], self.bytes[19]];
        proof {
            assert(r@ =~= self@.subrange(16, 20));
        }
        r
    }

    /// The raw option bytes, bounded by the declared header length.
    pub fn get_options_raw(&self) -> (r: &'a [u8])
        ensures
            r@ == spec_ipv4_options_window(self@),
    {
        proof {
            use_type_invariant(&*self);
        }
        let hl: usize = 4 * ((self.bytes[0] & 0x0f) as usize);
        let end: usize = if hl < 20 {
            20
        } else if hl > self.bytes.len() {
            self.bytes.len()
        } else {
            hl
        };
        slice_subrange(self.bytes, 20, end)
    }

    /// An iterator over the raw option bytes; what it will yield is the
    /// option sequence framed by the declared options window.
    pub fn get_options_zero_copy(&self) -> (r: Ipv4OptionsIterator<'a>)
        ensures
            r@ == spec_ipv4_options_window(self@),
            spec_ipv4_options(r@) == spec_ipv4_options(spec_ipv4_options_window(self@)),
    {
        Ipv4OptionsIterator::new(self.get_options_raw())
    }
}

/// Zero-copy view of an IPv6 packet: the window from the first byte of the
/// fixed 40-byte IPv6 header to the end of the captured data.
#[derive(Clone, Copy, Debug)]
pub struct Ipv6Packet<'a> {
    bytes: &'a [u8],
}

impl<'a> View for Ipv6Packet<'a> {
    type V = Seq<u8>;

    closed spec fn view(&self) -> Seq<u8> {
        self.bytes@
    }
}

impl<'a> Ipv6Packet<'a> {
    #[verifier::type_invariant]
    spec fn wf(self) -> bool {
        self.bytes@.len() >= 40
    }

    /// Version field.
    pub fn get_version(&self) -> (r: u8)
        ensures
            r == self@[0] >> 4,
    {
        proof {
            use_type_invariant(&*self);
        }
        self.bytes[0] >> 4
    }

    /// Payload length field: everything after the fixed header, in bytes.
    pub fn get_payload_length(&self) -> (r: u16)
        ensures
            r == spec_be16(self@, 4),
    {
        proof {
            use_type_invariant(&*self);
        }
        be16(self.bytes, 4)
    }

    /// The next-header value of the fixed header: the first extension kind,
    /// or the transport protocol when no extensions follow.
    pub fn get_next_header(&self) -> (r: u8)
        ensures
            r == self@[6],
    {
        proof {
            use_type_invariant(&*self);
        }
        self.bytes[6]
    }

    /// Hop limit.
    pub fn get_hop_limit(&self) -> (r: u8)
        ensures
            r == self@[7],
    {
        proof {
            use_type_invariant(&*self);
        }
        self.bytes[7]
    }

    /// Source address bytes.
    pub fn get_source(&self) -> (r: [u8; 16])
        ensures
            r@ == self@.subrange(8, 24),
    {
        proof {
            use_type_invariant(&*self);
        }
        let b = self.bytes;
        let r = [
            b[8],
            b[9],
            b[10],
            b[11],
            b[12],
            b[13],
            b[14],
            b[15],
            b[16],
            b[17],
            b[18],
            b[19],
            b[20],
            b[21],
            b[22],
            b[23],
        ];
        proof {
            assert(r@ =~= self@.subrange(8, 24));
        }
        r
    }

    /// Destination address bytes.
    pub fn get_destination(&self) -> (r: [u8; 16])
        ensures
            r@ == self@.subrange(24, 40),
    {
        proof {
            use_type_invariant(&*self);
        }
        let b = self.bytes;
        let r = [
            b[24],
            b[25],
            b[26],
            b[27],
            b[28],
            b[29],
            b[30],
            b[31],
            b[32],
            b[33],
            b[34],
            b[35],
            b[36],
            b[37],
            b[38],
            b[39],
        ];
        proof {
            assert(r@ =~= self@.subrange(24, 40));
        }
        r
    }
}

/// Zero-copy view of an ARP message.
#[derive(Clone, Copy, Debug)]
pub struct ArpPacket<'a> {
    bytes: &'a [u8],
}

impl<'a> View for ArpPacket<'a> {
    type V = Seq<u8>;

    closed spec fn view(&self) -> Seq<u8> {
        self.bytes@
    }
}

impl<'a> ArpPacket<'a> {
    #[verifier::type_invariant]
    spec fn wf(self) -> bool {
        self.bytes@.len() >= 28
    }

    /// Hardware type.
    pub fn get_hardware_type(&self) -> (r: u16)
        ensures
            r == spec_be16(self@, 0),
    {
        proof {
            use_type_invariant(&*self);
        }
        be16(self.bytes, 0)
    }

    /// Protocol type, an ethertype.
    pub fn get_protocol_type(&self) -> (r: u16)
        ensures
            r == spec_be16(self@, 2),
    {
        proof {
            use_type_invariant(&*self);
        }
        be16(self.bytes, 2)
    }

    /// Operation: request or reply.
    pub fn get_operation(&self) -> (r: u16)
        ensures
            r == spec_be16(self@, 6),
    {
        proof {
            use_type_invariant(&*self);
        }
        be16(self.bytes, 6)
    }

    /// Sender protocol address bytes.
    pub fn get_sender_proto_addr(&self) -> (r: [u8; 4])
        ensures
            r@ == self@.subrange(14, 18),
    {
        proof {
            use_type_invariant(&*self);
        }
        let r = [self.bytes[14], self.bytes[15], self.bytes[16], self.bytes[17]];
        proof {
            assert(r@ =~= self@.subrange(14, 18));
        }
        r
    }

    /// Target protocol address bytes.
    pub fn get_target_proto_addr(&self) -> (r: [u8; 4])
        ensures
            r@ == self@.subrange(24, 28),
    {
        proof {
            use_type_invariant(&*self);
        }
        let r = [self.bytes[24], self.bytes[25], self.bytes[26], self.bytes[27]];
        proof {
            assert(r@ =~= self@.subrange(24, 28));
        }
        r
    }
}

/// Ghost shape of a decoded network layer.
#[verifier::ext_equal]
pub enum L3Model {
    Ipv4 { bytes: Seq<u8>, l4: L4Model },
    Ipv6 { bytes: Seq<u8>, extensions: Ipv6ExtensionsModel, l4: L4Model },
    Arp { bytes: Seq<u8> },
}

/// A decoded network layer.
#[derive(Debug)]
pub enum L3Packet<'a> {
    Ipv4(Ipv4Packet<'a>, L4Packet<'a>),
    Ipv6(Ipv6Packet<'a>, Ipv6Extensions, L4Packet<'a>),
    Arp(ArpPacket<'a>),
}

impl<'a> View for L3Packet<'a> {
    type V = L3Model;

    open spec fn view(&self) -> L3Model {
        match self {
            L3Packet::Ipv4(h, l4) => L3Model::Ipv4 { bytes: h@, l4: l4@ },
            L3Packet::Ipv6(h, e, l4) => L3Model::Ipv6 { bytes: h@, extensions: e@, l4: l4@ },
            L3Packet::Arp(h) => L3Model::Arp { bytes: h@ },
        }
    }
}

/// What decoding a byte window as the given ethertype yields.  IPv4 consumes
/// its declared header and hands the rest to the transport decoder; IPv6
/// consumes its fixed header and extension chain first; ARP is terminal.
/// Every length is checked against the window before any part is cut off.
pub open spec fn spec_parse_l3(ether_type: u16, b: Seq<u8>) -> Result<L3Model, ParseError> {
    if ether_type == ETHERTYPE_IPV4 {
        if b.len() < 20 || spec_ipv4_header_len(b) < 20 || spec_ipv4_header_len(b) > b.len() {
            Err(ParseError::IPv4)
        } else {
            match spec_parse_l4(b[9], b.skip(spec_ipv4_header_len(b))) {
                Ok(l4) => Ok(L3Model::Ipv4 { bytes: b, l4 }),
                Err(e) => Err(ParseError::L4Error(e)),
            }
        }
    } else if ether_type == ETHERTYPE_IPV6 {
        if b.len() < 40 {
            Err(ParseError::IPv6)
        } else {
            match spec_walk_extensions(b.skip(40), b[6]) {
                Err(e) => Err(ParseError::Ipv6ExtensionError(e)),
                Ok(ext) => match spec_parse_l4(ext.next_protocol, b.skip(40 + ext.length)) {
                    Ok(l4) => Ok(L3Model::Ipv6 { bytes: b, extensions: ext, l4 }),
                    Err(e) => Err(ParseError::L4Error(e)),
                },
            }
        }
    } else if ether_type == ETHERTYPE_ARP {
        if b.len() < 28 {
            Err(ParseError::Arp)
        } else {
            Ok(L3Model::Arp { bytes: b })
        }
    } else {
        Err(ParseError::UnknownL3Protocol)
    }
}

/// The fixed header size of the network protocol an ethertype names; zero
/// for an ethertype with no handler.
pub open spec fn spec_l3_minimum(ether_type: u16) -> int {
    if ether_type == ETHERTYPE_IPV4 {
        20
    } else if ether_type == ETHERTYPE_IPV6 {
        40
    } else if ether_type == ETHERTYPE_ARP {
        28
    } else {
        0
    }
}

/// Truncation safety at the network layer: when a window decodes as some
/// network protocol, any prefix of it shorter than that protocol's fixed
/// header is rejected - never faulted on.
pub proof fn lemma_l3_truncation(ether_type: u16, b: Seq<u8>, n: int)
    requires
        0 <= n <= b.len(),
        spec_parse_l3(ether_type, b) is Ok,
        n < spec_l3_minimum(ether_type),
    ensures
        spec_parse_l3(ether_type, b.take(n)) is Err,
{
}

/// The source address of a network layer; ARP carries none.
pub open spec fn spec_l3_source(m: L3Model) -> Option<IpAddressModel> {
    match m {
        L3Model::Ipv4 { bytes, .. } => Some(IpAddressModel::V4(bytes.subrange(12, 16))),
        L3Model::Ipv6 { bytes, .. } => Some(IpAddressModel::V6(bytes.subrange(8, 24))),
        L3Model::Arp { .. } => None,
    }
}

/// The destination address of a network layer; ARP carries none.
pub open spec fn spec_l3_destination(m: L3Model) -> Option<IpAddressModel> {
    match m {
        L3Model::Ipv4 { bytes, .. } => Some(IpAddressModel::V4(bytes.subrange(16, 20))),
        L3Model::Ipv6 { bytes, .. } => Some(IpAddressModel::V6(bytes.subrange(24, 40))),
        L3Model::Arp { .. } => None,
    }
}

/// The transport layer below a network layer; ARP has none.
pub open spec fn spec_l3_l4(m: L3Model) -> Option<L4Model> {
    match m {
        L3Model::Ipv4 { l4, .. } => Some(l4),
        L3Model::Ipv6 { l4, .. } => Some(l4),
        L3Model::Arp { .. } => None,
    }
}

/// The transport protocol number a network layer resolves to: IPv4's
/// protocol field, or the IPv6 chain's resolved next protocol.
pub open spec fn spec_l3_l4_protocol(m: L3Model) -> Option<u8> {
    match m {
        L3Model::Ipv4 { bytes, .. } => Some(bytes[9]),
        L3Model::Ipv6 { extensions, .. } => Some(extensions.next_protocol),
        L3Model::Arp { .. } => None,
    }
}

impl<'a> L3Packet<'a> {
    /// Decodes `bytes` as the network protocol named by `ether_type`,
    /// delegating what follows the network header to the transport decoder.
    pub fn try_from(ether_type: u16, bytes: &'a [u8]) -> (r: Result<Self, ParseError>)
        ensures
            (match r {
                Ok(p) => spec_parse_l3(ether_type, bytes@) == Ok::<L3Model, ParseError>(p@),
                Err(e) => spec_parse_l3(ether_type, bytes@) == Err::<L3Model, ParseError>(e),
            }),
    {
        if ether_type == ETHERTYPE_IPV4 {
            if bytes.len() < 20 {
                return Err(ParseError::IPv4);
            }
            let header_length: usize = 4 * ((bytes[0] & 0x0f) as usize);
            if header_length < 20 || header_length > bytes.len() {
                return Err(ParseError::IPv4);
            }
            let l4_bytes = slice_subrange(bytes, header_length, bytes.len());
            proof {
                assert(l4_bytes@ =~= bytes@.skip(spec_ipv4_header_len(bytes@)));
            }
            match L4Packet::try_from(bytes[9], l4_bytes) {
                Ok(l4) => Ok(L3Packet::Ipv4(Ipv4Packet { bytes }, l4)),
                Err(e) => Err(ParseError::L4Error(e)),
            }
        } else if ether_type == ETHERTYPE_IPV6 {
            if bytes.len() < 40 {
                return Err(ParseError::IPv6);
            }
            let ext_bytes = slice_subrange(bytes, 40, bytes.len());
            proof {
                assert(ext_bytes@ =~= bytes@.skip(40));
            }
            match Ipv6Extensions::try_from(ext_bytes, bytes[6]) {
                Err(e) => Err(ParseError::Ipv6ExtensionError(e)),
                Ok(extensions) => {
                    let l4_start: usize = 40 + extensions.length;
                    let l4_bytes = slice_subrange(bytes, l4_start, bytes.len());
                    proof {
                        assert(l4_bytes@ =~= bytes@.skip(40 + extensions@.length));
                    }
                    match L4Packet::try_from(extensions.next_protocol, l4_bytes) {
                        Ok(l4) => Ok(L3Packet::Ipv6(Ipv6Packet { bytes }, extensions, l4)),
                        Err(e) => Err(ParseError::L4Error(e)),
                    }
                },
            }
        } else if ether_type == ETHERTYPE_ARP {
            if bytes.len() < 28 {
                return Err(ParseError::Arp);
            }
            Ok(L3Packet::Arp(ArpPacket { bytes }))
        } else {
            Err(ParseError::UnknownL3Protocol)
        }
    }

    /// Source address; `None` for ARP.
    pub fn get_source(&self) -> (r: Option<IpAddress>)
        ensures
            (match (r, spec_l3_source(self@)) {
                (Some(a), Some(m)) => a@ == m,
                (None, None) => true,
                _ => false,
            }),
    {
        match self {
            L3Packet::Ipv4(h, _) => Some(IpAddress::V4(h.get_source())),
            L3Packet::Ipv6(h, _, _) => Some(IpAddress::V6(h.get_source())),
            L3Packet::Arp(_) => None,
        }
    }

    /// Destination address; `None` for ARP.
    pub fn get_destination(&self) -> (r: Option<IpAddress>)
        ensures
            (match (r, spec_l3_destination(self@)) {
                (Some(a), Some(m)) => a@ == m,
                (None, None) => true,
                _ => false,
            }),
    {
        match self {
            L3Packet::Ipv4(h, _) => Some(IpAddress::V4(h.get_destination())),
            L3Packet::Ipv6(h, _, _) => Some(IpAddress::V6(h.get_destination())),
            L3Packet::Arp(_) => None,
        }
    }

    /// The transport layer; `None` for ARP.
    pub fn get_l4(&self) -> (r: Option<&L4Packet<'a>>)
        ensures
            (match r {
                Some(l4) => spec_l3_l4(self@) == Some(l4@),
                None => spec_l3_l4(self@) is None,
            }),
    {
        match self {
            L3Packet::Ipv4(_, l4) => Some(l4),
            L3Packet::Ipv6(_, _, l4) => Some(l4),
            L3Packet::Arp(_) => None,
        }
    }

    /// The transport protocol number this network layer resolves to; `None`
    /// for ARP.
    pub fn get_l4_protocol(&self) -> (r: Option<u8>)
        ensures
            r == spec_l3_l4_protocol(self@),
    {
        match self {
            L3Packet::Ipv4(h, _) => Some(h.get_next_level_protocol()),
            L3Packet::Ipv6(_, e, _) => Some(e.next_protocol),
            L3Packet::Arp(_) => None,
        }
    }
}

} // verus!
