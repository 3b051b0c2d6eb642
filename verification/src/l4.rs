use crate::wire::{be16, be32, spec_be16, spec_be32};
use vstd::prelude::*;
use vstd::slice::slice_subrange;

verus! {

/// Transport protocol numbers recognised by the layer-4 decoder.
pub const IP_PROTOCOL_ICMP: u8 = 1;

pub const IP_PROTOCOL_TCP: u8 = 6;

pub const IP_PROTOCOL_UDP: u8 = 17;

pub const IP_PROTOCOL_GRE: u8 = 47;

pub const IP_PROTOCOL_ICMPV6: u8 = 58;

/// Why a byte window could not be decoded as a transport header.
#[derive(Debug, Clone, Copy, PartialEq, Eq)]
pub enum ParseError {
    /// Too short for the fixed 20-byte TCP header.
    Tcp,
    /// Too short for the fixed 8-byte UDP header.
    Udp,
    /// Too short for the fixed 4-byte GRE header.
    Gre,
    /// Too short for the fixed 4-byte ICMP header.
    Icmp,
    /// Too short for the fixed 4-byte ICMPv6 header.
    Icmpv6,
    /// The protocol number matches no supported transport protocol.
    UnknownL4Protocol,
}

/// Zero-copy view of a TCP segment: the window from the first byte of the
/// TCP header to the end of the captured data.
#[derive(Clone, Copy, Debug)]
pub struct TcpPacket<'a> {
    bytes: &'a [u8],
}

impl<'a> View for TcpPacket<'a> {
    type V = Seq<u8>;

    closed spec fn view(&self) -> Seq<u8> {
        self.bytes@
    }
}

/// The data-offset field: the TCP header length in 32-bit words.
pub open spec fn spec_tcp_data_offset(s: Seq<u8>) -> u8 {
    s[12] >> 4
}

/// The window holding the TCP options: from byte 20 up to the end of the
/// header that the data-offset field declares, clamped to the captured data.
pub open spec fn spec_tcp_options_window(s: Seq<u8>) -> Seq<u8>
    recommends
        s.len() >= 20,
{
    let hl = 4 * (spec_tcp_data_offset(s) as int);
    let end = if hl < 20 {
        20int
    } else if hl > s.len() {
        s.len() as int
    } else {
        hl
    };
    s.subrange(20, end)
}

/// The bytes after the TCP header (as the data-offset field declares it,
/// clamped to the captured data).
pub open spec fn spec_tcp_payload(s: Seq<u8>) -> Seq<u8>
    recommends
        s.len() >= 20,
{
    let hl = 4 * (spec_tcp_data_offset(s) as int);
    let start = if hl < 20 {
        20int
    } else {
        hl
    };
    if start > s.len() {
        Seq::empty()
    } else {
        s.skip(start)
    }
}

impl<'a> TcpPacket<'a> {
    #[verifier::type_invariant]
    spec fn wf(self) -> bool {
        self.bytes@.len() >= 20
    }

    /// Wraps `bytes` when the fixed 20-byte TCP header is present.
    pub fn new(bytes: &'a [u8]) -> (r: Option<Self>)
        ensures
            r is Some <==> bytes@.len() >= 20,
            r matches Some(p) ==> p@ == bytes@,
    {
        if bytes.len() >= 20 {
            Some(TcpPacket { bytes })
        } else {
            None
        }
    }

    /// Source port.
    pub fn get_source(&self) -> (r: u16)
        ensures
            r == spec_be16(self@, 0),
    {
        proof {
            use_type_invariant(&*self);
        }
        be16(self.bytes, 0)
    }

    /// Destination port.
    pub fn get_destination(&self) -> (r: u16)
        ensures
            r == spec_be16(self@, 2),
    {
        proof {
            use_type_invariant(&*self);
        }
        be16(self.bytes, 2)
    }

    /// Sequence number.
    pub fn get_sequence(&self) -> (r: u32)
        ensures
            r == spec_be32(self@, 4),
    {
        proof {
            use_type_invariant(&*self);
        }
        be32(self.bytes, 4)
    }

    /// Acknowledgement number.
    pub fn get_acknowledgement(&self) -> (r: u32)
        ensures
            r == spec_be32(self@, 8),
    {
        proof {
            use_type_invariant(&*self);
        }
        be32(self.bytes, 8)
    }

    /// Header length in 32-bit words.
    pub fn get_data_offset(&self) -> (r: u8)
        ensures
            r == spec_tcp_data_offset(self@),
    {
        proof {
            use_type_invariant(&*self);
        }
        self.bytes[12] >> 4
    }

    /// The flags byte.
    pub fn get_flags(&self) -> (r: u8)
        ensures
            r == self@[13],
    {
        proof {
            use_type_invariant(&*self);
        }
        self.bytes[13]
    }

    /// Window size.
    pub fn get_window(&self) -> (r: u16)
        ensures
            r == spec_be16(self@, 14),
    {
        proof {
            use_type_invariant(&*self);
        }
        be16(self.bytes, 14)
    }

    /// Checksum.
    pub fn get_checksum(&self) -> (r: u16)
        ensures
            r == spec_be16(self@, 16),
    {
        proof {
            use_type_invariant(&*self);
        }
        be16(self.bytes, 16)
    }

    /// The raw option bytes, bounded by the declared header length.
    pub fn get_options_raw(&self) -> (r: &'a [u8])
        ensures
            r@ == spec_tcp_options_window(self@),
    {
        proof {
            use_type_invariant(&*self);
        }
        let hl: usize = 4 * ((self.bytes[12] >> 4) as usize);
        let end: usize = if hl < 20 {
            20
        } else if hl > self.bytes.len() {
            self.bytes.len()
        } else {
            hl
        };
        slice_subrange(self.bytes, 20, end)
    }

    /// The bytes after the declared TCP header.
    pub fn payload(&self) -> (r: &'a [u8])
        ensures
            r@ == spec_tcp_payload(self@),
    {
        proof {
            use_type_invariant(&*self);
        }
        let hl: usize = 4 * ((self.bytes[12] >> 4) as usize);
        let start: usize = if hl < 20 {
            20
        } else if hl > self.bytes.len() {
            self.bytes.len()
        } else {
            hl
        };
        slice_subrange(self.bytes, start, self.bytes.len())
    }
}

/// Zero-copy view of a UDP datagram.
#[derive(Clone, Copy, Debug)]
pub struct UdpPacket<'a> {
    bytes: &'a [u8],
}

impl<'a> View for UdpPacket<'a> {
    type V = Seq<u8>;

    closed spec fn view(&self) -> Seq<u8> {
        self.bytes@
    }
}

impl<'a> UdpPacket<'a> {
    #[verifier::type_invariant]
    spec fn wf(self) -> bool {
        self.bytes@.len() >= 8
    }

    /// Wraps `bytes` when the fixed 8-byte UDP header is present.
    pub fn new(bytes: &'a [u8]) -> (r: Option<Self>)
        ensures
            r is Some <==> bytes@.len() >= 8,
            r matches Some(p) ==> p@ == bytes@,
    {
        if bytes.len() >= 8 {
            Some(UdpPacket { bytes })
        } else {
            None
        }
    }

    /// Source port.
    pub fn get_source(&self) -> (r: u16)
        ensures
            r == spec_be16(self@, 0),
    {
        proof {
            use_type_invariant(&*self);
        }
        be16(self.bytes, 0)
    }

    /// Destination port.
    pub fn get_destination(&self) -> (r: u16)
        ensures
            r == spec_be16(self@, 2),
    {
        proof {
            use_type_invariant(&*self);
        }
        be16(self.bytes, 2)
    }

    /// The length field: header plus data, in bytes.
    pub fn get_length(&self) -> (r: u16)
        ensures
            r == spec_be16(self@, 4),
    {
        proof {
            use_type_invariant(&*self);
        }
        be16(self.bytes, 4)
    }

    /// Checksum.
    pub fn get_checksum(&self) -> (r: u16)
        ensures
            r == spec_be16(self@, 6),
    {
        proof {
            use_type_invariant(&*self);
        }
        be16(self.bytes, 6)
    }

    /// The bytes after the 8-byte UDP header.
    pub fn payload(&self) -> (r: &'a [u8])
        ensures
            r@ == self@.skip(8),
    {
        proof {
            use_type_invariant(&*self);
        }
        slice_subrange(self.bytes, 8, self.bytes.len())
    }
}

/// The GRE header length that the flag bits declare: 4 fixed bytes, plus 4
/// for checksum+offset when the checksum-present or routing-present bit is
/// set, plus 4 each for a present key and sequence number.
pub open spec fn spec_gre_header_len(s: Seq<u8>) -> int
    recommends
        s.len() >= 4,
{
    4 + (if (s[0] >> 7) & 1 == 1 || (s[0] >> 6) & 1 == 1 {
        4int
    } else {
        0int
    }) + (if (s[0] >> 5) & 1 == 1 {
        4int
    } else {
        0int
    }) + (if (s[0] >> 4) & 1 == 1 {
        4int
    } else {
        0int
    })
}

/// The bytes after the GRE header, clamped to the captured data.
pub open spec fn spec_gre_payload(s: Seq<u8>) -> Seq<u8>
    recommends
        s.len() >= 4,
{
    let hl = spec_gre_header_len(s);
    if hl > s.len() {
        Seq::empty()
    } else {
        s.skip(hl)
    }
}

/// Zero-copy view of a GRE header and its encapsulated payload.
#[derive(Clone, Copy, Debug)]
pub struct GrePacket<'a> {
    bytes: &'a [u8],
}

impl<'a> View for GrePacket<'a> {
    type V = Seq<u8>;

    closed spec fn view(&self) -> Seq<u8> {
        self.bytes@
    }
}

impl<'a> GrePacket<'a> {
    #[verifier::type_invariant]
    spec fn wf(self) -> bool {
        self.bytes@.len() >= 4
    }

    /// Wraps `bytes` when the fixed 4-byte GRE header is present.
    pub fn new(bytes: &'a [u8]) -> (r: Option<Self>)
        ensures
            r is Some <==> bytes@.len() >= 4,
            r matches Some(p) ==> p@ == bytes@,
    {
        if bytes.len() >= 4 {
            Some(GrePacket { bytes })
        } else {
            None
        }
    }

    /// The checksum-present bit.
    pub fn get_checksum_present(&self) -> (r: u8)
        ensures
            r == (self@[0] >> 7) & 1,
    {
        proof {
            use_type_invariant(&*self);
        }
        (self.bytes[0] >> 7) & 1
    }

    /// The routing-present bit.
    pub fn get_routing_present(&self) -> (r: u8)
        ensures
            r == (self@[0] >> 6) & 1,
    {
        proof {
            use_type_invariant(&*self);
        }
        (self.bytes[0] >> 6) & 1
    }

    /// The key-present bit.
    pub fn get_key_present(&self) -> (r: u8)
        ensures
            r == (self@[0] >> 5) & 1,
    {
        proof {
            use_type_invariant(&*self);
        }
        (self.bytes[0] >> 5) & 1
    }

    /// The sequence-present bit.
    pub fn get_sequence_present(&self) -> (r: u8)
        ensures
            r == (self@[0] >> 4) & 1,
    {
        proof {
            use_type_invariant(&*self);
        }
        (self.bytes[0] >> 4) & 1
    }

    /// The version bits.
    pub fn get_version(&self) -> (r: u8)
        ensures
            r == self@[1] & 7,
    {
        proof {
            use_type_invariant(&*self);
        }
        self.bytes[1] & 7
    }

    /// The protocol type of the encapsulated payload, an ethertype.
    pub fn get_protocol_type(&self) -> (r: u16)
        ensures
            r == spec_be16(self@, 2),
    {
        proof {
            use_type_invariant(&*self);
        }
        be16(self.bytes, 2)
    }

    /// The encapsulated payload: the bytes after the GRE header, whose size
    /// follows from the flag bits.
    pub fn payload(&self) -> (r: &'a [u8])
        ensures
            r@ == spec_gre_payload(self@),
    {
        proof {
            use_type_invariant(&*self);
        }
        let b0 = self.bytes[0];
        let mut hl: usize = 4;
        if (b0 >> 7) & 1 == 1 || (b0 >> 6) & 1 == 1 {
            hl = hl + 4;
        }
        if (b0 >> 5) & 1 == 1 {
            hl = hl + 4;
        }
        if (b0 >> 4) & 1 == 1 {
            hl = hl + 4;
        }
        let start: usize = if hl > self.bytes.len() {
            self.bytes.len()
        } else {
            hl
        };
        slice_subrange(self.bytes, start, self.bytes.len())
    }
}

/// Zero-copy view of an ICMP message.
#[derive(Clone, Copy, Debug)]
pub struct IcmpPacket<'a> {
    bytes: &'a [u8],
}

impl<'a> View for IcmpPacket<'a> {
    type V = Seq<u8>;

    closed spec fn view(&self) -> Seq<u8> {
        self.bytes@
    }
}

impl<'a> IcmpPacket<'a> {
    #[verifier::type_invariant]
    spec fn wf(self) -> bool {
        self.bytes@.len() >= 4
    }

    /// Wraps `bytes` when the fixed 4-byte ICMP header is present.
    pub fn new(bytes: &'a [u8]) -> (r: Option<Self>)
        ensures
            r is Some <==> bytes@.len() >= 4,
            r matches Some(p) ==> p@ == bytes@,
    {
        if bytes.len() >= 4 {
            Some(IcmpPacket { bytes })
        } else {
            None
        }
    }

    /// The ICMP type.
    pub fn get_icmp_type(&self) -> (r: u8)
        ensures
            r == self@[0],
    {
        proof {
            use_type_invariant(&*self);
        }
        self.bytes[0]
    }

    /// The ICMP code.
    pub fn get_icmp_code(&self) -> (r: u8)
        ensures
            r == self@[1],
    {
        proof {
            use_type_invariant(&*self);
        }
        self.bytes[1]
    }

    /// Checksum.
    pub fn get_checksum(&self) -> (r: u16)
        ensures
            r == spec_be16(self@, 2),
    {
        proof {
            use_type_invariant(&*self);
        }
        be16(self.bytes, 2)
    }

    /// The bytes after the 4-byte ICMP header.
    pub fn payload(&self) -> (r: &'a [u8])
        ensures
            r@ == self@.skip(4),
    {
        proof {
            use_type_invariant(&*self);
        }
        slice_subrange(self.bytes, 4, self.bytes.len())
    }
}

/// Zero-copy view of an ICMPv6 message.
#[derive(Clone, Copy, Debug)]
pub struct Icmpv6Packet<'a> {
    bytes: &'a [u8],
}

impl<'a> View for Icmpv6Packet<'a> {
    type V = Seq<u8>;

    closed spec fn view(&self) -> Seq<u8> {
        self.bytes@
    }
}

impl<'a> Icmpv6Packet<'a> {
    #[verifier::type_invariant]
    spec fn wf(self) -> bool {
        self.bytes@.len() >= 4
    }

    /// Wraps `bytes` when the fixed 4-byte ICMPv6 header is present.
    pub fn new(bytes: &'a [u8]) -> (r: Option<Self>)
        ensures
            r is Some <==> bytes@.len() >= 4,
            r matches Some(p) ==> p@ == bytes@,
    {
        if bytes.len() >= 4 {
            Some(Icmpv6Packet { bytes })
        } else {
            None
        }
    }

    /// The ICMPv6 type.
    pub fn get_icmpv6_type(&self) -> (r: u8)
        ensures
            r == self@[0],
    {
        proof {
            use_type_invariant(&*self);
        }
        self.bytes[0]
    }

    /// The ICMPv6 code.
    pub fn get_icmpv6_code(&self) -> (r: u8)
        ensures
            r == self@[1],
    {
        proof {
            use_type_invariant(&*self);
        }
        self.bytes[1]
    }

    /// Checksum.
    pub fn get_checksum(&self) -> (r: u16)
        ensures
            r == spec_be16(self@, 2),
    {
        proof {
            use_type_invariant(&*self);
        }
        be16(self.bytes, 2)
    }

    /// The bytes after the 4-byte ICMPv6 header.
    pub fn payload(&self) -> (r: &'a [u8])
        ensures
            r@ == self@.skip(4),
    {
        proof {
            use_type_invariant(&*self);
        }
        slice_subrange(self.bytes, 4, self.bytes.len())
    }
}

/// Ghost shape of a decoded transport layer: the protocol tag and the byte
/// window the view covers.
#[verifier::ext_equal]
pub enum L4Model {
    Tcp(Seq<u8>),
    Udp(Seq<u8>),
    Gre(Seq<u8>),
    Icmp(Seq<u8>),
    Icmpv6(Seq<u8>),
}

/// A decoded transport layer.
#[derive(Clone, Copy, Debug)]
pub enum L4Packet<'a> {
    Tcp(TcpPacket<'a>),
    Udp(UdpPacket<'a>),
    Gre(GrePacket<'a>),
    Icmp(IcmpPacket<'a>),
    Icmpv6(Icmpv6Packet<'a>),
}

impl<'a> View for L4Packet<'a> {
    type V = L4Model;

    open spec fn view(&self) -> L4Model {
        match self {
            L4Packet::Tcp(h) => L4Model::Tcp(h@),
            L4Packet::Udp(h) => L4Model::Udp(h@),
            L4Packet::Gre(h) => L4Model::Gre(h@),
            L4Packet::Icmp(h) => L4Model::Icmp(h@),
            L4Packet::Icmpv6(h) => L4Model::Icmpv6(h@),
        }
    }
}

/// What decoding a byte window as the given transport protocol yields: the
/// matching view when the window holds the protocol's fixed header, the
/// protocol's too-short error when it does not, and the unknown-protocol
/// error for a protocol number with no handler.
pub open spec fn spec_parse_l4(next_protocol: u8, b: Seq<u8>) -> Result<L4Model, ParseError> {
    if next_protocol == IP_PROTOCOL_TCP {
        if b.len() >= 20 {
            Ok(L4Model::Tcp(b))
        } else {
            Err(ParseError::Tcp)
        }
    } else if next_protocol == IP_PROTOCOL_UDP {
        if b.len() >= 8 {
            Ok(L4Model::Udp(b))
        } else {
            Err(ParseError::Udp)
        }
    } else if next_protocol == IP_PROTOCOL_GRE {
        if b.len() >= 4 {
            Ok(L4Model::Gre(b))
        } else {
            Err(ParseError::Gre)
        }
    } else if next_protocol == IP_PROTOCOL_ICMP {
        if b.len() >= 4 {
            Ok(L4Model::Icmp(b))
        } else {
            Err(ParseError::Icmp)
        }
    } else if next_protocol == IP_PROTOCOL_ICMPV6 {
        if b.len() >= 4 {
            Ok(L4Model::Icmpv6(b))
        } else {
            Err(ParseError::Icmpv6)
        }
    } else {
        Err(ParseError::UnknownL4Protocol)
    }
}

/// The fixed header size of the transport protocol a number names; zero for
/// a number with no handler.
pub open spec fn spec_l4_minimum(next_protocol: u8) -> int {
    if next_protocol == IP_PROTOCOL_TCP {
        20
    } else if next_protocol == IP_PROTOCOL_UDP {
        8
    } else if next_protocol == IP_PROTOCOL_GRE {
        4
    } else if next_protocol == IP_PROTOCOL_ICMP {
        4
    } else if next_protocol == IP_PROTOCOL_ICMPV6 {
        4
    } else {
        0
    }
}

/// Truncation safety at the transport layer: when a window decodes as some
/// transport protocol, a prefix of it decodes exactly while it still covers
/// that protocol's fixed header, and is rejected - never faulted on - below
/// that.
pub proof fn lemma_l4_truncation(next_protocol: u8, b: Seq<u8>, n: int)
    requires
        0 <= n <= b.len(),
        spec_parse_l4(next_protocol, b) is Ok,
    ensures
        (spec_parse_l4(next_protocol, b.take(n)) is Ok <==> n >= spec_l4_minimum(next_protocol)),
{
}

/// The payload bytes of a transport layer: whatever follows the header each
/// protocol declares (fixed for UDP, ICMP and ICMPv6; by the data-offset
/// field for TCP; by the flag bits for GRE).
pub open spec fn spec_l4_payload(m: L4Model) -> Seq<u8> {
    match m {
        L4Model::Tcp(s) => spec_tcp_payload(s),
        L4Model::Udp(s) => s.skip(8),
        L4Model::Gre(s) => spec_gre_payload(s),
        L4Model::Icmp(s) => s.skip(4),
        L4Model::Icmpv6(s) => s.skip(4),
    }
}

/// The source port of a transport layer; ports exist only for TCP and UDP.
pub open spec fn spec_l4_source(m: L4Model) -> Option<u16> {
    match m {
        L4Model::Tcp(s) => Some(spec_be16(s, 0)),
        L4Model::Udp(s) => Some(spec_be16(s, 0)),
        _ => None,
    }
}

/// The destination port of a transport layer; ports exist only for TCP and
/// UDP.
pub open spec fn spec_l4_destination(m: L4Model) -> Option<u16> {
    match m {
        L4Model::Tcp(s) => Some(spec_be16(s, 2)),
        L4Model::Udp(s) => Some(spec_be16(s, 2)),
        _ => None,
    }
}

impl<'a> L4Packet<'a> {
    /// Decodes `bytes` as the transport protocol named by `next_protocol`.
    pub fn try_from(next_protocol: u8, bytes: &'a [u8]) -> (r: Result<Self, ParseError>)
        ensures
            (match r {
                Ok(p) => spec_parse_l4(next_protocol, bytes@) == Ok::<L4Model, ParseError>(p@),
                Err(e) => spec_parse_l4(next_protocol, bytes@) == Err::<L4Model, ParseError>(e),
            }),
    {
        match next_protocol {
            IP_PROTOCOL_TCP => match TcpPacket::new(bytes) {
                Some(h) => Ok(L4Packet::Tcp(h)),
                None => Err(ParseError::Tcp),
            },
            IP_PROTOCOL_UDP => match UdpPacket::new(bytes) {
                Some(h) => Ok(L4Packet::Udp(h)),
                None => Err(ParseError::Udp),
            },
            IP_PROTOCOL_GRE => match GrePacket::new(bytes) {
                Some(h) => Ok(L4Packet::Gre(h)),
                None => Err(ParseError::Gre),
            },
            IP_PROTOCOL_ICMP => match IcmpPacket::new(bytes) {
                Some(h) => Ok(L4Packet::Icmp(h)),
                None => Err(ParseError::Icmp),
            },
            IP_PROTOCOL_ICMPV6 => match Icmpv6Packet::new(bytes) {
                Some(h) => Ok(L4Packet::Icmpv6(h)),
                None => Err(ParseError::Icmpv6),
            },
            _ => Err(ParseError::UnknownL4Protocol),
        }
    }

    /// Source port; `None` for the port-less transport protocols.
    pub fn get_source(&self) -> (r: Option<u16>)
        ensures
            r == spec_l4_source(self@),
    {
        match self {
            L4Packet::Tcp(h) => Some(h.get_source()),
            L4Packet::Udp(h) => Some(h.get_source()),
            L4Packet::Gre(_) | L4Packet::Icmp(_) | L4Packet::Icmpv6(_) => None,
        }
    }

    /// Destination port; `None` for the port-less transport protocols.
    pub fn get_destination(&self) -> (r: Option<u16>)
        ensures
            r == spec_l4_destination(self@),
    {
        match self {
            L4Packet::Tcp(h) => Some(h.get_destination()),
            L4Packet::Udp(h) => Some(h.get_destination()),
            L4Packet::Gre(_) | L4Packet::Icmp(_) | L4Packet::Icmpv6(_) => None,
        }
    }
}

} // verus!
