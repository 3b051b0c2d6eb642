//! Zero-copy walkers over the variable-length parts of the transport layer.

/// Lazy iteration over TCP option bytes.
pub mod tcp_options;
