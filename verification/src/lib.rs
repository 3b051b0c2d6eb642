//! Zero-copy decoding of nested network protocol headers.
//!
//! A captured frame is decoded in a single pass: Ethernet (with any number of
//! stacked 802.1Q tags), then IPv4/IPv6/ARP, then TCP/UDP/GRE/ICMP/ICMPv6,
//! with one level of GRE tunnel re-entry.  Every view borrows the caller's
//! buffer; no byte of the input is copied.  Each decoder's contract states,
//! for every input, exactly which packet or which error comes back.

/// Layer 2 protocols.
pub mod l2;
/// Layer 3 protocols.
pub mod l3;
/// Zero-copy walkers over the variable-length parts of the network layer:
/// IPv4 options and IPv6 extension-header chains.
pub mod l3_extensions;
/// Layer 4 protocols.
pub mod l4;
/// Zero-copy walkers over the variable-length parts of the transport layer.
pub mod l4_extensions;
/// The top-level packet: tunnel resolution and header positions.
pub mod packet;
/// Connection tuples derived from a decoded packet.
pub mod tuples;
/// Byte-order helpers shared by every layer.
pub mod wire;
