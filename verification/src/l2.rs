use crate::l3::{self, spec_parse_l3, L3Model, L3Packet};
use crate::wire::{be16, spec_be16};
use vstd::prelude::*;
use vstd::slice::slice_subrange;

verus! {

/// The 802.1Q tag protocol identifier.
pub const ETHERTYPE_VLAN: u16 = 0x8100;

/// Why a byte buffer could not be decoded as a link-layer frame.
#[derive(Debug, Clone, Copy, PartialEq, Eq)]
pub enum ParseError {
    /// Too short for the fixed 14-byte Ethernet header.
    Ethernet,
    /// An ethertype announced a VLAN tag but fewer than 4 bytes follow.
    Vlan,
    /// The network layer above failed.
    ErrorAbove(l3::ParseError),
}

/// One decoded 802.1Q tag.
#[derive(Debug, Clone, Copy, PartialEq, Eq, Structural)]
pub struct VlanTag {
    /// The three priority bits.
    pub priority_code_point: u8,
    /// The drop-eligible bit.
    pub drop_eligible_indicator: u8,
    /// The twelve VLAN-identifier bits.
    pub vlan_identifier: u16,
    /// The ethertype of what follows this tag.
    pub ethertype: u16,
}

/// The tag held by the four bytes of `s` starting at `i`.
pub open spec fn spec_vlan_tag(s: Seq<u8>, i: int) -> VlanTag
    recommends
        0 <= i,
        i + 4 <= s.len(),
{
    VlanTag {
        priority_code_point: s[i] >> 5,
        drop_eligible_indicator: (s[i] >> 4) & 1,
        vlan_identifier: (((s[i] & 0x0f) as int) * 256 + s[i + 1]) as u16,
        ethertype: spec_be16(s, i + 2),
    }
}

/// Holds the decoded VLAN tags with inline capacity for the common stacks of
/// at most two tags (heap-backed only beyond that).
#[derive(Debug)]
#[verifier::external_body]
pub struct VlanPackets {
    items: smallvec::SmallVec<[VlanTag; 2]>,
}

/// The tags a VLAN list holds, outermost first.
pub uninterp spec fn vlan_list_seq(v: VlanPackets) -> Seq<VlanTag>;

impl View for VlanPackets {
    type V = Seq<VlanTag>;

    open spec fn view(&self) -> Seq<VlanTag> {
        vlan_list_seq(*self)
    }
}

impl VlanPackets {
    /// Relies on smallvec::SmallVec::new: a freshly created vector is empty.
    #[verifier::external_body]
    fn new() -> (r: Self)
        ensures
            vlan_list_seq(r) == Seq::<VlanTag>::empty(),
    {
        VlanPackets { items: smallvec::SmallVec::new() }
    }

    /// Relies on smallvec::SmallVec::push: appends the element at the back.
    #[verifier::external_body]
    fn push(&mut self, t: VlanTag)
        ensures
            vlan_list_seq(*final(self)) == vlan_list_seq(*old(self)).push(t),
    {
        self.items.push(t);
    }

    /// Relies on smallvec::SmallVec::len: the number of elements held.
    #[verifier::external_body]
    pub fn len(&self) -> (r: usize)
        ensures
            r == vlan_list_seq(*self).len(),
    {
        self.items.len()
    }

    /// Relies on the slice `get` reached through smallvec's Deref: the
    /// element at an in-bounds index, `None` past the end.
    #[verifier::external_body]
    pub fn get(&self, index: usize) -> (r: Option<VlanTag>)
        ensures
            r == (if index < vlan_list_seq(*self).len() {
                Some(vlan_list_seq(*self)[index as int])
            } else {
                None::<VlanTag>
            }),
    {
        self.items.get(index).copied()
    }
}

/// Zero-copy view of an Ethernet frame: the window from the first byte of
/// the Ethernet header to the end of the captured data.
#[derive(Clone, Copy, Debug)]
pub struct EthernetPacket<'a> {
    bytes: &'a [u8],
}

impl<'a> View for EthernetPacket<'a> {
    type V = Seq<u8>;

    closed spec fn view(&self) -> Seq<u8> {
        self.bytes@
    }
}

impl<'a> EthernetPacket<'a> {
    #[verifier::type_invariant]
    spec fn wf(self) -> bool {
        self.bytes@.len() >= 14
    }

    /// Destination hardware address.
    pub fn get_destination(&self) -> (r: [u8; 6])
        ensures
            r@ == self@.subrange(0, 6),
    {
        proof {
            use_type_invariant(&*self);
        }
        let b = self.bytes;
        let r = [b[0], b[1], b[2], b[3], b[4], b[5]];
        proof {
            assert(r@ =~= self@.subrange(0, 6));
        }
        r
    }

    /// Source hardware address.
    pub fn get_source(&self) -> (r: [u8; 6])
        ensures
            r@ == self@.subrange(6, 12),
    {
        proof {
            use_type_invariant(&*self);
        }
        let b = self.bytes;
        let r = [b[6], b[7], b[8], b[9], b[10], b[11]];
        proof {
            assert(r@ =~= self@.subrange(6, 12));
        }
        r
    }

    /// The frame's ethertype: the final network protocol, or the VLAN tag
    /// protocol identifier when tags follow.
    pub fn get_ethertype(&self) -> (r: u16)
        ensures
            r == spec_be16(self@, 12),
    {
        proof {
            use_type_invariant(&*self);
        }
        be16(self.bytes, 12)
    }
}

/// Ghost shape of a decoded link layer.
#[verifier::ext_equal]
pub enum L2Model {
    Ethernet { eth: Seq<u8>, vlans: Seq<VlanTag>, l3: L3Model },
}

/// A decoded link layer: the Ethernet header view, the stacked VLAN tags,
/// and the network layer above.
#[derive(Debug)]
pub enum L2Packet<'a> {
    Ethernet(EthernetPacket<'a>, VlanPackets, L3Packet<'a>),
}

impl<'a> View for L2Packet<'a> {
    type V = L2Model;

    open spec fn view(&self) -> L2Model {
        match self {
            L2Packet::Ethernet(h, v, l3) => L2Model::Ethernet {
                eth: h@,
                vlans: vlan_list_seq(*v),
                l3: l3@,
            },
        }
    }
}

/// What walking the stacked VLAN tags at the start of `b` yields, given the
/// ethertype read just before `b`: the tags, the final resolved ethertype,
/// and the bytes consumed.  `None` when an announced tag is cut off.
pub open spec fn spec_vlan_walk(b: Seq<u8>, ether_type: u16) -> Option<(Seq<VlanTag>, u16, int)>
    decreases b.len(),
{
    if ether_type != ETHERTYPE_VLAN {
        Some((Seq::empty(), ether_type, 0))
    } else if b.len() < 4 {
        None
    } else {
        match spec_vlan_walk(b.skip(4), spec_be16(b, 2)) {
            None => None,
            Some((tags, final_type, off)) => Some(
                (seq![spec_vlan_tag(b, 0)] + tags, final_type, 4 + off),
            ),
        }
    }
}

/// What decoding a buffer as a link-layer frame yields: the Ethernet header,
/// however many stacked VLAN tags follow it, and the network layer decoded
/// from the final resolved ethertype.
pub open spec fn spec_parse_l2(b: Seq<u8>) -> Result<L2Model, ParseError> {
    if b.len() < 14 {
        Err(ParseError::Ethernet)
    } else {
        match spec_vlan_walk(b.skip(14), spec_be16(b, 12)) {
            None => Err(ParseError::Vlan),
            Some((tags, final_type, off)) => match spec_parse_l3(final_type, b.skip(14 + off)) {
                Ok(l3) => Ok(L2Model::Ethernet { eth: b, vlans: tags, l3 }),
                Err(e) => Err(ParseError::ErrorAbove(e)),
            },
        }
    }
}

/// The network layer of a link layer.
pub open spec fn spec_l2_l3(m: L2Model) -> L3Model {
    match m {
        L2Model::Ethernet { l3, .. } => l3,
    }
}

/// The VLAN tags of a link layer.
pub open spec fn spec_l2_vlans(m: L2Model) -> Seq<VlanTag> {
    match m {
        L2Model::Ethernet { vlans, .. } => vlans,
    }
}

impl<'a> L2Packet<'a> {
    /// Decodes a buffer that begins at an Ethernet header, walking however
    /// many stacked VLAN tags follow before the network layer.  The stack
    /// depth is deliberately uncapped: an adversarial stack costs work (and,
    /// beyond the inline capacity, allocations) proportional to its depth.
    pub fn try_from(bytes: &'a [u8]) -> (r: Result<Self, ParseError>)
        ensures
            (match r {
                Ok(p) => spec_parse_l2(bytes@) == Ok::<L2Model, ParseError>(p@),
                Err(e) => spec_parse_l2(bytes@) == Err::<L2Model, ParseError>(e),
            }),
    {
        if bytes.len() < 14 {
            return Err(ParseError::Ethernet);
        }
        let mut offset: usize = 14;
        let mut ethertype: u16 = be16(bytes, 12);
        let mut vlans = VlanPackets::new();
        proof {
            let overall = spec_vlan_walk(bytes@.skip(14), spec_be16(bytes@, 12));
            if overall is Some {
                assert(Seq::<VlanTag>::empty() + overall->Some_0.0 =~= overall->Some_0.0);
            }
        }
        while ethertype == ETHERTYPE_VLAN
            invariant
                14 <= offset <= bytes@.len(),
                (match spec_vlan_walk(bytes@.skip(offset as int), ethertype) {
                    Some((tags, final_type, off)) => spec_vlan_walk(
                        bytes@.skip(14),
                        spec_be16(bytes@, 12),
                    ) == Some((vlan_list_seq(vlans) + tags, final_type, offset - 14 + off)),
                    None => spec_vlan_walk(bytes@.skip(14), spec_be16(bytes@, 12)) is None,
                }),
            decreases bytes@.len() - offset,
        {
            let ghost window = bytes@.skip(offset as int);
            if bytes.len() - offset < 4 {
                return Err(ParseError::Vlan);
            }
            let b0 = bytes[offset];
            let tag = VlanTag {
                priority_code_point: b0 >> 5,
                drop_eligible_indicator: (b0 >> 4) & 1,
                vlan_identifier: ((b0 & 0x0f) as u16) * 256 + (bytes[offset + 1] as u16),
                ethertype: be16(bytes, offset + 2),
            };
            let ghost old_tags = vlan_list_seq(vlans);
            vlans.push(tag);
            proof {
                assert(window[0] == bytes@[offset as int]);
                assert(window[1] == bytes@[offset as int + 1]);
                assert(spec_be16(window, 2) == spec_be16(bytes@, offset as int + 2));
                assert(tag == spec_vlan_tag(window, 0));
                assert(window.skip(4) =~= bytes@.skip(offset as int + 4));
                let step = spec_vlan_walk(bytes@.skip(offset as int + 4), spec_be16(window, 2));
                if step is Some {
                    assert(old_tags + (seq![tag] + step->Some_0.0) =~= old_tags.push(tag)
                        + step->Some_0.0);
                }
            }
            ethertype = be16(bytes, offset + 2);
            offset = offset + 4;
        }
        proof {
            assert(vlan_list_seq(vlans) + Seq::<VlanTag>::empty() =~= vlan_list_seq(vlans));
        }
        let l3_bytes = slice_subrange(bytes, offset, bytes.len());
        proof {
            assert(l3_bytes@ =~= bytes@.skip(14 + (offset - 14)));
        }
        match L3Packet::try_from(ethertype, l3_bytes) {
            Ok(l3) => Ok(L2Packet::Ethernet(EthernetPacket { bytes }, vlans, l3)),
            Err(e) => Err(ParseError::ErrorAbove(e)),
        }
    }

    /// The network layer above this frame.
    pub fn get_l3(&self) -> (r: Option<&L3Packet<'a>>)
        ensures
            (r matches Some(l3) && l3@ == spec_l2_l3(self@)),
    {
        match self {
            L2Packet::Ethernet(_, _, l3) => Some(l3),
        }
    }

    /// The stacked VLAN tags, outermost first.
    pub fn get_vlans(&self) -> (r: &VlanPackets)
        ensures
            vlan_list_seq(*r) == spec_l2_vlans(self@),
    {
        match self {
            L2Packet::Ethernet(_, vlans, _) => vlans,
        }
    }

    /// The VLAN tag at `index`, outermost first.
    pub fn get_vlan_at(&self, index: usize) -> (r: Option<VlanTag>)
        ensures
            r == (if index < spec_l2_vlans(self@).len() {
                Some(spec_l2_vlans(self@)[index as int])
            } else {
                None::<VlanTag>
            }),
    {
        match self {
            L2Packet::Ethernet(_, vlans, _) => vlans.get(index),
        }
    }
}

} // verus!
