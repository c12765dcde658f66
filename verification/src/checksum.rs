//! The Internet checksum: a one's-complement sum of 16-bit words.
//!
//! Words are added into a wide accumulator, the carries above bit 15 are
//! folded back into the low 16 bits until none remain, and the result is
//! complemented.

use vstd::prelude::*;
use crate::byte_order::{be_word, join_bytes};

verus! {

/// The accumulator `acc` with its carries folded in: the part above bit 15 is
/// added to the low 16 bits, again and again, until the value fits in 16 bits.
pub open spec fn fold_carries(acc: nat) -> nat
    decreases acc,
{
    if acc < 0x1_0000 {
        acc
    } else {
        fold_carries(acc / 0x1_0000 + acc % 0x1_0000)
    }
}

/// The checksum that an accumulator stands for: the complement, in 16 bits,
/// of the accumulator with its carries folded in.
pub open spec fn checksum_of(acc: nat) -> nat {
    (0xffff - fold_carries(acc)) as nat
}

/// The sum of the first `words` big-endian 16-bit words of `data`.
pub open spec fn leading_words_sum(data: Seq<u8>, words: nat) -> nat
    decreases words,
{
    if words == 0 {
        0
    } else {
        leading_words_sum(data, (words - 1) as nat) + be_word(
            data[2 * words - 2],
            data[2 * words - 1],
        )
    }
}

/// The sum of `data` read as big-endian 16-bit words. A last byte without a
/// partner counts as the high byte of a word whose low byte is zero.
pub open spec fn word_sum(data: Seq<u8>) -> nat {
    leading_words_sum(data, data.len() / 2) + if data.len() % 2 == 1 {
        be_word(data[data.len() - 1], 0)
    } else {
        0
    }
}

/// The sum of the two big-endian 16-bit words that a four-byte address holds.
pub open spec fn address_sum(octets: Seq<u8>) -> nat {
    be_word(octets[0], octets[1]) + be_word(octets[2], octets[3])
}

/// Folding ends in 16 bits, keeps zero apart from every other value, and
/// keeps the remainder modulo `0xffff`.
pub proof fn lemma_fold_carries(acc: nat)
    ensures
        fold_carries(acc) <= 0xffff,
        fold_carries(acc) == 0 <==> acc == 0,
        fold_carries(acc) % 0xffff == acc % 0xffff,
    decreases acc,
{
    if acc >= 0x1_0000 {
        let next = acc / 0x1_0000 + acc % 0x1_0000;
        lemma_fold_carries(next);
        assert(acc == 0x1_0000 * (acc / 0x1_0000) + acc % 0x1_0000) by (nonlinear_arith);
        assert(next % 0xffff == acc % 0xffff) by (nonlinear_arith)
            requires
                acc == 0x1_0000 * (acc / 0x1_0000) + acc % 0x1_0000,
                next == acc / 0x1_0000 + acc % 0x1_0000,
        ;
    }
}

/// A checksum makes the data it was computed over check out: added to the
/// accumulator it came from, it gives a sum that folds to all ones, and so a
/// checksum of zero.
pub proof fn lemma_checksum_verifies(acc: nat)
    ensures
        checksum_of(acc) <= 0xffff,
        fold_carries(acc) == 0xffff - checksum_of(acc),
        fold_carries(acc + checksum_of(acc)) == 0xffff,
        checksum_of(acc + checksum_of(acc)) == 0,
{
    let folded = fold_carries(acc);
    let total = acc + checksum_of(acc);
    lemma_fold_carries(acc);
    lemma_fold_carries(total);
    assert(total % 0xffff == 0) by (nonlinear_arith)
        requires
            folded <= 0xffff,
            folded % 0xffff == acc % 0xffff,
            total == acc + 0xffff - folded,
    ;
    assert(fold_carries(total) == 0xffff) by (nonlinear_arith)
        requires
            0 < fold_carries(total) <= 0xffff,
            fold_carries(total) % 0xffff == 0,
    ;
}

/// A sum of `words` 16-bit words is at most `words` times the largest word.
pub proof fn lemma_leading_words_sum_bound(data: Seq<u8>, words: nat)
    ensures
        leading_words_sum(data, words) <= 0xffff * words,
    decreases words,
{
    if words > 0 {
        lemma_leading_words_sum_bound(data, (words - 1) as nat);
    }
}

/// Adds the two 16-bit words of a four-byte address.
pub fn ip_sum(octets: [u8; 4]) -> (sum: u32)
    ensures
        sum == address_sum(octets@),
{
    let a: u32 = octets[0] as u32;
    let b: u32 = octets[1] as u32;
    let c: u32 = octets[2] as u32;
    let d: u32 = octets[3] as u32;
    proof {
        assert((a << 8 | b) == a * 256 + b && (c << 8 | d) == c * 256 + d) by (bit_vector)
            requires
                a < 256,
                b < 256,
                c < 256,
                d < 256,
        ;
    }
    (a << 8 | b) + (c << 8 | d)
}

/// Folds the carries of the accumulator `cs` and complements the result.
pub fn finalize_checksum(cs: u32) -> (checksum: u16)
    ensures
        checksum == checksum_of(cs as nat),
{
    let mut acc: u32 = cs;
    while acc >> 16 != 0
        invariant
            fold_carries(acc as nat) == fold_carries(cs as nat),
        decreases acc,
    {
        proof {
            assert(acc >> 16 == acc / 0x1_0000 && acc & 0xffff == acc % 0x1_0000 && ((acc >> 16)
                != 0 ==> acc >= 0x1_0000)) by (bit_vector);
        }
        acc = (acc >> 16) + (acc & 0xFFFF);
    }
    proof {
        assert(acc >> 16 == 0 ==> acc < 0x1_0000) by (bit_vector);
    }
    let low: u16 = acc as u16;
    proof {
        assert(!low == 0xffff - low) by (bit_vector);
    }
    !low
}

/// Adds up `data` as big-endian 16-bit words, a last single byte counting as
/// the high byte of a word. The length is bounded so that the sum fits the
/// 32-bit accumulator.
pub fn sum_words(data: &[u8]) -> (sum: u32)
    requires
        data@.len() <= 0x2_0000,
    ensures
        sum == word_sum(data@),
{
    let words: usize = data.len() / 2;
    let mut sum: u32 = 0;
    let mut i: usize = 0;
    while i < words
        invariant
            words == data@.len() / 2,
            data@.len() <= 0x2_0000,
            i <= words,
            sum == leading_words_sum(data@, i as nat),
        decreases words - i,
    {
        proof {
            lemma_leading_words_sum_bound(data@, (i + 1) as nat);
        }
        let word: u16 = join_bytes(data[2 * i], data[2 * i + 1]);
        sum = sum + word as u32;
        i = i + 1;
    }
    if data.len() % 2 == 1 {
        proof {
            lemma_leading_words_sum_bound(data@, words as nat);
        }
        let word: u16 = join_bytes(data[data.len() - 1], 0);
        sum = sum + word as u32;
    }
    sum
}

} // verus!
