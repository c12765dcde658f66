//! What every protocol header has in common: the operations of a header
//! codec, and the network-layer data that a transport header's checksum
//! covers.

use vstd::prelude::*;
use crate::checksum::address_sum;

pub mod tcp;

verus! {

/// The encoded bytes of one header, ready to stand before the payload.
pub type PacketData = Vec<u8>;

/// The protocol that a header belongs to.
#[derive(Clone, Copy, Debug, PartialEq, Eq)]
pub enum Protocol {
    TCP,
    UDP,
}

/// Why a buffer could not be decoded.
#[derive(Clone, Copy, Debug, PartialEq, Eq)]
pub enum ParseError {
    /// The buffer is shorter than the protocol's smallest header.
    InvalidLength,
}

/// The network-layer fields that enter a transport header's checksum without
/// being sent with it.
#[derive(Clone, Copy, Debug, PartialEq, Eq)]
pub struct PseudoHeader {
    pub src_ip: [u8; 4],
    pub dst_ip: [u8; 4],
    pub protocol: u8,
    /// Length of the whole segment: transport header and payload.
    pub data_len: u16,
}

impl PseudoHeader {
    /// What these fields add to a checksum accumulator: both addresses as two
    /// words each, the protocol number and the segment length.
    pub open spec fn word_sum(self) -> nat {
        address_sum(self.src_ip@) + address_sum(self.dst_ip@) + self.protocol as nat
            + self.data_len as nat
    }
}

/// The operations of a header codec.
pub trait Header: Sized {
    /// Whether the header holds all that its encoding needs.
    spec fn complete(&self) -> bool;

    /// The number of bytes of this header's encoding.
    spec fn length(&self) -> nat;

    /// The number of bytes of the protocol's smallest header.
    spec fn min_length() -> nat;

    /// The protocol of this kind of header.
    spec fn proto() -> Protocol;

    /// Encodes the header, which is used up by it.
    fn make(self) -> (packet: PacketData)
        requires
            self.complete(),
        ensures
            packet@.len() == self.length(),
    ;

    /// Decodes a header from the front of `raw_data`. Fails exactly when the
    /// buffer is shorter than the protocol's smallest header.
    fn parse(raw_data: &[u8]) -> (parsed: Result<Box<Self>, ParseError>)
        ensures
            parsed is Err <==> raw_data@.len() < Self::min_length(),
            parsed is Err ==> parsed == Err::<Box<Self>, ParseError>(ParseError::InvalidLength),
    ;

    fn get_proto(&self) -> (proto: Protocol)
        ensures
            proto == Self::proto(),
    ;

    fn get_length(&self) -> (length: u8)
        ensures
            length == self.length(),
    ;

    fn get_min_length() -> (length: u8)
        ensures
            length == Self::min_length(),
    ;
}

/// A header whose checksum also covers fields of the network layer below it.
pub trait TransportHeader: Header {
    /// The number that the network layer gives this protocol.
    spec fn protocol_number() -> u8;

    /// The network-layer fields bound to this header, if any.
    spec fn pseudo_header(&self) -> Option<PseudoHeader>;

    /// Binds the addresses and the payload length that the checksum covers.
    /// Header and payload together must fit the 16-bit length field.
    fn set_pseudo_header(&mut self, src_ip: [u8; 4], dst_ip: [u8; 4], data_len: u16)
        requires
            data_len + old(self).length() <= 0xffff,
        ensures
            final(self).pseudo_header() == Some(
                (PseudoHeader {
                    src_ip,
                    dst_ip,
                    protocol: Self::protocol_number(),
                    data_len: (data_len + old(self).length()) as u16,
                }),
            ),
            final(self).length() == old(self).length(),
    ;
}

} // verus!
