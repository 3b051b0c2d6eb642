//! Zero-copy walkers over the variable-length parts of the network layer:
//! IPv4 options and IPv6 extension-header chains.

/// Lazy iteration over IPv4 option bytes.
pub mod ipv4_options;
/// The IPv6 extension-header chain walker.
pub mod ipv6_extensions;
