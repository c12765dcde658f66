//! Codecs for fixed-format network protocol headers.
//!
//! A header value is built field by field, bound to the network-layer data
//! that its checksum covers, and then laid out as bytes in network byte
//! order. Raw bytes are decoded back into header values.

pub mod byte_order;
pub mod checksum;
pub mod headers;
