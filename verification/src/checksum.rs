//! The header checksum: an eight-bit fold over a run of header bytes.

use vstd::prelude::*;

verus! {

/// One step of the checksum: the accumulator less the byte less one, reduced
/// modulo 256.
pub open spec fn checksum_step(acc: u8, byte: u8) -> u8 {
    ((acc - byte - 1) % 256) as u8
}

/// The checksum of a run of bytes: the steps applied from an accumulator of
/// zero, one byte after another in ascending order.
pub open spec fn checksum_of(bytes: Seq<u8>) -> u8 {
    bytes.fold_left(0u8, |acc: u8, byte: u8| checksum_step(acc, byte))
}

/// The sum of a run of bytes, as a mathematical integer.
pub open spec fn byte_sum(bytes: Seq<u8>) -> int {
    bytes.fold_left(0int, |sum: int, byte: u8| sum + byte)
}

/// The checksum in closed form: it is the negated sum of the bytes and of
/// their count, reduced modulo 256. So the checksum, the bytes and their
/// count always add up to a multiple of 256.
pub proof fn lemma_checksum_closed_form(bytes: Seq<u8>)
    ensures
        checksum_of(bytes) == (-(byte_sum(bytes) + bytes.len())) % 256,
        (checksum_of(bytes) + byte_sum(bytes) + bytes.len()) % 256 == 0,
    decreases bytes.len(),
{
    if bytes.len() > 0 {
        lemma_checksum_closed_form(bytes.drop_last());
    }
}

/// Computes the checksum of a run of bytes.
pub fn compute_checksum(bytes: &[u8]) -> (sum: u8)
    ensures
        sum == checksum_of(bytes@),
{
    let mut acc: u8 = 0;
    let mut i: usize = 0;
    while i < bytes.len()
        invariant
            i <= bytes.len(),
            acc == checksum_of(bytes@.take(i as int)),
        decreases bytes.len() - i,
    {
        proof {
            let next = bytes@.take(i + 1);
            assert(next.drop_last() == bytes@.take(i as int));
            assert(next.last() == bytes@[i as int]);
        }
        acc = acc.wrapping_sub(bytes[i]).wrapping_sub(1);
        i += 1;
    }
    assert(bytes@.take(bytes.len() as int) == bytes@);
    acc
}

} // verus!
