use crate::l3::{
    spec_l3_destination, spec_l3_l4_protocol, spec_l3_source, IpAddress, IpAddressModel, L3Packet,
};
use crate::l4::{spec_l4_destination, spec_l4_source, L4Packet};
use crate::packet::{spec_l3_of, spec_l4_of, HeaderPosition, Packet, PacketModel};
use vstd::prelude::*;

verus! {

/// A connection's address/port pair: who is talking to whom.
#[derive(Debug, Clone, PartialEq, Eq, Hash)]
pub struct FourTuple {
    pub source_ip: IpAddress,
    pub source_port: u16,
    pub destination_ip: IpAddress,
    pub destination_port: u16,
}

/// Ghost shape of a four-tuple.
#[verifier::ext_equal]
pub struct FourTupleModel {
    pub source_ip: IpAddressModel,
    pub source_port: u16,
    pub destination_ip: IpAddressModel,
    pub destination_port: u16,
}

impl View for FourTuple {
    type V = FourTupleModel;

    open spec fn view(&self) -> FourTupleModel {
        FourTupleModel {
            source_ip: self.source_ip@,
            source_port: self.source_port,
            destination_ip: self.destination_ip@,
            destination_port: self.destination_port,
        }
    }
}

/// A four-tuple plus the transport protocol number.
#[derive(Debug, Clone, PartialEq, Eq, Hash)]
pub struct FiveTuple {
    pub source_ip: IpAddress,
    pub source_port: u16,
    pub destination_ip: IpAddress,
    pub destination_port: u16,
    pub protocol: u8,
}

/// Ghost shape of a five-tuple.
#[verifier::ext_equal]
pub struct FiveTupleModel {
    pub source_ip: IpAddressModel,
    pub source_port: u16,
    pub destination_ip: IpAddressModel,
    pub destination_port: u16,
    pub protocol: u8,
}

impl View for FiveTuple {
    type V = FiveTupleModel;

    open spec fn view(&self) -> FiveTupleModel {
        FiveTupleModel {
            source_ip: self.source_ip@,
            source_port: self.source_port,
            destination_ip: self.destination_ip@,
            destination_port: self.destination_port,
            protocol: self.protocol,
        }
    }
}

/// The (network, transport) pair a position selects for tuple derivation:
/// `Inner` and `Outer` take exactly that header set, while `Innermost` takes
/// the inner pair when a tunnel provides both layers and falls back to the
/// outer pair otherwise.
pub open spec fn spec_tuple_pair(m: PacketModel, position: HeaderPosition) -> Option<
    (crate::l3::L3Model, crate::l4::L4Model),
> {
    match position {
        HeaderPosition::Inner | HeaderPosition::Outer => {
            match (spec_l3_of(m, position), spec_l4_of(m, position)) {
                (Some(l3), Some(l4)) => Some((l3, l4)),
                _ => None,
            }
        },
        HeaderPosition::Innermost => {
            match (spec_l3_of(m, HeaderPosition::Inner), spec_l4_of(m, HeaderPosition::Inner)) {
                (Some(l3), Some(l4)) => Some((l3, l4)),
                _ => match (
                    spec_l3_of(m, HeaderPosition::Outer),
                    spec_l4_of(m, HeaderPosition::Outer),
                ) {
                    (Some(l3), Some(l4)) => Some((l3, l4)),
                    _ => None,
                },
            }
        },
    }
}

/// The four-tuple a position derives: present exactly when the selected pair
/// carries both addresses and both ports; nothing is ever fabricated.
pub open spec fn spec_four_tuple_of(m: PacketModel, position: HeaderPosition) -> Option<
    FourTupleModel,
> {
    match spec_tuple_pair(m, position) {
        None => None,
        Some((l3, l4)) => match (
            spec_l3_source(l3),
            spec_l4_source(l4),
            spec_l3_destination(l3),
            spec_l4_destination(l4),
        ) {
            (Some(si), Some(sp), Some(di), Some(dp)) => Some(
                FourTupleModel {
                    source_ip: si,
                    source_port: sp,
                    destination_ip: di,
                    destination_port: dp,
                },
            ),
            _ => None,
        },
    }
}

/// The five-tuple a position derives: the four-tuple's fields plus the
/// resolved transport protocol number.
pub open spec fn spec_five_tuple_of(m: PacketModel, position: HeaderPosition) -> Option<
    FiveTupleModel,
> {
    match spec_tuple_pair(m, position) {
        None => None,
        Some((l3, l4)) => match (
            spec_l3_source(l3),
            spec_l4_source(l4),
            spec_l3_destination(l3),
            spec_l4_destination(l4),
            spec_l3_l4_protocol(l3),
        ) {
            (Some(si), Some(sp), Some(di), Some(dp), Some(proto)) => Some(
                FiveTupleModel {
                    source_ip: si,
                    source_port: sp,
                    destination_ip: di,
                    destination_port: dp,
                    protocol: proto,
                },
            ),
            _ => None,
        },
    }
}

impl<'a> Packet<'a> {
    /// Derives the four-tuple at the given position, when the selected
    /// header pair carries addresses and ports.
    pub fn get_four_tuple(&self, position: HeaderPosition) -> (r: Option<FourTuple>)
        ensures
            (match (r, spec_four_tuple_of(self@, position)) {
                (Some(t), Some(mt)) => t@ == mt,
                (None, None) => true,
                _ => false,
            }),
    {
        let (l3, l4): (&L3Packet<'a>, &L4Packet<'a>) = match self.tuple_pair(position) {
            Some(p) => p,
            None => {
                return None;
            },
        };
        let source_ip = match l3.get_source() {
            Some(x) => x,
            None => {
                return None;
            },
        };
        let source_port = match l4.get_source() {
            Some(x) => x,
            None => {
                return None;
            },
        };
        let destination_ip = match l3.get_destination() {
            Some(x) => x,
            None => {
                return None;
            },
        };
        let destination_port = match l4.get_destination() {
            Some(x) => x,
            None => {
                return None;
            },
        };
        Some(FourTuple { source_ip, source_port, destination_ip, destination_port })
    }

    /// Derives the five-tuple at the given position: the four-tuple plus the
    /// resolved transport protocol number.
    pub fn get_five_tuple(&self, position: HeaderPosition) -> (r: Option<FiveTuple>)
        ensures
            (match (r, spec_five_tuple_of(self@, position)) {
                (Some(t), Some(mt)) => t@ == mt,
                (None, None) => true,
                _ => false,
            }),
    {
        let (l3, l4): (&L3Packet<'a>, &L4Packet<'a>) = match self.tuple_pair(position) {
            Some(p) => p,
            None => {
                return None;
            },
        };
        let source_ip = match l3.get_source() {
            Some(x) => x,
            None => {
                return None;
            },
        };
        let source_port = match l4.get_source() {
            Some(x) => x,
            None => {
                return None;
            },
        };
        let destination_ip = match l3.get_destination() {
            Some(x) => x,
            None => {
                return None;
            },
        };
        let destination_port = match l4.get_destination() {
            Some(x) => x,
            None => {
                return None;
            },
        };
        let protocol = match l3.get_l4_protocol() {
            Some(x) => x,
            None => {
                return None;
            },
        };
        Some(FiveTuple { source_ip, source_port, destination_ip, destination_port, protocol })
    }

    /// The header pair tuple derivation resolves against.
    fn tuple_pair(&self, position: HeaderPosition) -> (r: Option<(&L3Packet<'a>, &L4Packet<'a>)>)
        ensures
            (match (r, spec_tuple_pair(self@, position)) {
                (Some((l3, l4)), Some((ml3, ml4))) => l3@ == ml3 && l4@ == ml4,
                (None, None) => true,
                _ => false,
            }),
    {
        match position {
            HeaderPosition::Inner | HeaderPosition::Outer => {
                let l3 = match self.get_l3(position) {
                    Some(x) => x,
                    None => {
                        return None;
                    },
                };
                let l4 = match self.get_l4(position) {
                    Some(x) => x,
                    None => {
                        return None;
                    },
                };
                Some((l3, l4))
            },
            HeaderPosition::Innermost => {
                match self.get_l3(HeaderPosition::Inner) {
                    Some(l3) => match self.get_l4(HeaderPosition::Inner) {
                        Some(l4) => {
                            return Some((l3, l4));
                        },
                        None => {},
                    },
                    None => {},
                }
                let l3 = match self.get_l3(HeaderPosition::Outer) {
                    Some(x) => x,
                    None => {
                        return None;
                    },
                };
                let l4 = match self.get_l4(HeaderPosition::Outer) {
                    Some(x) => x,
                    None => {
                        return None;
                    },
                };
                Some((l3, l4))
            },
        }
    }
}

impl From<FiveTuple> for FourTuple {
    /// Drops the protocol field.
    fn from(five_tuple: FiveTuple) -> (r: Self) {
        FourTuple {
            source_ip: five_tuple.source_ip,
            source_port: five_tuple.source_port,
            destination_ip: five_tuple.destination_ip,
            destination_port: five_tuple.destination_port,
        }
    }
}

impl vstd::std_specs::convert::FromSpecImpl<FiveTuple> for FourTuple {
    open spec fn obeys_from_spec() -> bool {
        true
    }

    open spec fn from_spec(t: FiveTuple) -> FourTuple {
        FourTuple {
            source_ip: t.source_ip,
            source_port: t.source_port,
            destination_ip: t.destination_ip,
            destination_port: t.destination_port,
        }
    }
}

/// Round-trip tuple symmetry.  At any one position, the four-tuple and the
/// five-tuple are derivable together, and wherever both exist the
/// five-tuple's address and port fields equal the four-tuple's exactly:
/// dropping the protocol field loses nothing.
pub proof fn lemma_tuple_round_trip(m: PacketModel, position: HeaderPosition)
    ensures
        (spec_four_tuple_of(m, position) is Some <==> spec_five_tuple_of(m, position) is Some),
        (match (spec_four_tuple_of(m, position), spec_five_tuple_of(m, position)) {
            (Some(f), Some(v)) => f == (FourTupleModel {
                source_ip: v.source_ip,
                source_port: v.source_port,
                destination_ip: v.destination_ip,
                destination_port: v.destination_port,
            }),
            (None, None) => true,
            _ => false,
        }),
{
}

/// Converting a five-tuple to a four-tuple through `From` keeps every
/// address and port field: at the ghost level the conversion is exactly the
/// projection that drops the protocol.
pub proof fn lemma_five_to_four_projection(t: FiveTuple)
    ensures
        (<FourTuple as vstd::std_specs::convert::FromSpec<FiveTuple>>::from_spec(t))@ == (FourTupleModel {
            source_ip: t@.source_ip,
            source_port: t@.source_port,
            destination_ip: t@.destination_ip,
            destination_port: t@.destination_port,
        }),
{
}

} // verus!
