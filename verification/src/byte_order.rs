//! Conversion between 16-bit integers and their big-endian byte pairs.

use vstd::prelude::*;

verus! {

/// The 16-bit value whose most significant byte is `hi` and whose least
/// significant byte is `lo`.
pub open spec fn be_word(hi: u8, lo: u8) -> nat {
    (hi as nat) * 256 + (lo as nat)
}

/// The most significant byte of `v`.
pub open spec fn be_hi(v: u16) -> u8 {
    (v as nat / 256) as u8
}

/// The least significant byte of `v`.
pub open spec fn be_lo(v: u16) -> u8 {
    (v as nat % 256) as u8
}

/// Encodes `v` as two bytes, most significant first.
pub fn split_to_bytes(v: u16) -> (bytes: [u8; 2])
    ensures
        bytes[0] == be_hi(v),
        bytes[1] == be_lo(v),
        be_word(bytes[0], bytes[1]) == v,
{
    let hi: u8 = (v >> 8) as u8;
    let lo: u8 = (v & 0xff) as u8;
    proof {
        assert(v >> 8 == v / 256 && v & 0xff == v % 256) by (bit_vector);
    }
    [hi, lo]
}

/// Decodes two bytes, most significant first, into the value they encode.
pub fn join_bytes(hi: u8, lo: u8) -> (v: u16)
    ensures
        v == be_word(hi, lo),
        be_hi(v) == hi,
        be_lo(v) == lo,
{
    let h: u16 = hi as u16;
    proof {
        assert(h << 8 == h * 256) by (bit_vector)
            requires
                h < 256,
        ;
    }
    let v: u16 = (h << 8) + (lo as u16);
    v
}

/// Decoding the encoding of any 16-bit value gives the value back.
pub proof fn lemma_split_then_join(v: u16)
    ensures
        be_word(be_hi(v), be_lo(v)) == v,
{
}

/// Encoding the value decoded from any two bytes gives the two bytes back.
pub proof fn lemma_join_then_split(hi: u8, lo: u8)
    ensures
        be_word(hi, lo) <= u16::MAX,
        be_hi(be_word(hi, lo) as u16) == hi,
        be_lo(be_word(hi, lo) as u16) == lo,
{
}

} // verus!
