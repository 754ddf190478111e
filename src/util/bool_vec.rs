//! A compact sequence of booleans, eight to a byte.

use vstd::prelude::*;

verus! {

/// An array-like sequence of bits.
///
/// Bit `i` is bit `i % 8` of byte `i / 8`, least significant bit first.
pub trait BoolVec {
    /// The number of bits the sequence holds.
    spec fn bit_len(&self) -> nat;

    /// The bit at position `index`.
    spec fn bit_at(&self, index: int) -> bool;

    /// Returns the bit at the given index.
    fn bit(&self, index: usize) -> (r: bool)
        requires
            index < self.bit_len(),
        ensures
            r == self.bit_at(index as int),
    ;

    /// Sets the bit at the given index, leaving the others unchanged.
    fn set_bit(&mut self, index: usize, value: bool)
        requires
            index < old(self).bit_len(),
        ensures
            final(self).bit_len() == old(self).bit_len(),
            final(self).bit_at(index as int) == value,
            forall|j: int| 0 <= j < old(self).bit_len() && j != index ==> #[trigger] final(self).bit_at(j) == old(self).bit_at(j),
    ;
}

/// Bit `r` of byte `b`.
pub open spec fn byte_bit(b: u8, r: int) -> bool {
    (b >> (r as u8)) & 1u8 == 1u8
}

proof fn lemma_test_bit(b: u8, r: u8)
    requires
        r < 8,
    ensures
        (b & (1u8 << r) != 0u8) == ((b >> r) & 1u8 == 1u8),
{
    assert((b & (1u8 << r) != 0u8) == ((b >> r) & 1u8 == 1u8)) by (bit_vector)
        requires r < 8u8;
}

proof fn lemma_set_bit(b: u8, r: u8, s: u8)
    requires
        r < 8,
        s < 8,
    ensures
        ((b | (1u8 << r)) >> s) & 1u8 == if s == r { 1u8 } else { (b >> s) & 1u8 },
        ((b & !(1u8 << r)) >> s) & 1u8 == if s == r { 0u8 } else { (b >> s) & 1u8 },
{
    assert(((b | (1u8 << r)) >> s) & 1u8 == if s == r { 1u8 } else { (b >> s) & 1u8 }) by (bit_vector)
        requires r < 8u8, s < 8u8;
    assert(((b & !(1u8 << r)) >> s) & 1u8 == if s == r { 0u8 } else { (b >> s) & 1u8 }) by (bit_vector)
        requires r < 8u8, s < 8u8;
}

impl BoolVec for [u8] {
    open spec fn bit_len(&self) -> nat {
        self@.len() * 8
    }

    open spec fn bit_at(&self, index: int) -> bool {
        byte_bit(self@[index / 8], index % 8)
    }

    fn bit(&self, index: usize) -> (r: bool) {
        let (bkt, rem) = bucket_and_inner_index(index);
        let bucket = self[bkt];
        let isolated = bucket & (1u8 << (rem as u8));
        proof {
            lemma_test_bit(bucket, rem as u8);
        }
        isolated != 0
    }

    fn set_bit(&mut self, index: usize, value: bool) {
        let (bkt, rem) = bucket_and_inner_index(index);
        let mask: u8 = 1u8 << (rem as u8);
        let ghost before = self@;
        let b = self[bkt];
        if value {
            self[bkt] = b | mask;
        } else {
            self[bkt] = b & !mask;
        }
        proof {
            assert forall|j: int| 0 <= j < before.len() * 8 && j != index implies
                #[trigger] byte_bit(self@[j / 8], j % 8) == byte_bit(before[j / 8], j % 8) by {
                if j / 8 == bkt {
                    lemma_set_bit(b, rem as u8, (j % 8) as u8);
                }
            }
            lemma_set_bit(b, rem as u8, rem as u8);
        }
    }
}

/// Returns the byte that holds bit `index` and the position of the bit in
/// that byte, least significant bit first.
fn bucket_and_inner_index(index: usize) -> (r: (usize, usize))
    ensures
        r == (index / 8, index % 8),
{
    let bkt = index / 8;
    let rem = index % 8;
    (bkt, rem)
}

} // verus!
