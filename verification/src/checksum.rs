//! The 16-bit frame checksum and what it detects.

use vstd::prelude::*;

verus! {

/// One round of the checksum: the accumulator after the byte `c`.
///
/// The two halves of the accumulator change places, `c` is mixed into the low
/// byte, and three shifted copies are folded in.
pub open spec fn crc_step(acc: u16, c: u8) -> u16 {
    let mixed = ((acc >> 8) | (acc << 8)) ^ (c as u16);
    let folded = mixed ^ ((mixed & 0xFF) >> 4);
    let spread = folded ^ (folded << 12);
    spread ^ ((spread & 0xFF) << 5)
}

/// The accumulator after all of `data`, starting from `0xFFFF`.
pub open spec fn crc_state(data: Seq<u8>) -> u16
    decreases data.len(),
{
    if data.len() == 0 {
        0xFFFF
    } else {
        crc_step(crc_state(data.drop_last()), data.last())
    }
}

/// The checksum of `data`: the final accumulator, inverted.
pub open spec fn checksum16(data: Seq<u8>) -> u16 {
    crc_state(data) ^ 0xFFFF
}

/// The checksum depends on the bytes alone: sequences with the same bytes
/// have the same checksum, however often it is computed.
pub proof fn lemma_checksum_deterministic(a: Seq<u8>, b: Seq<u8>)
    requires
        a.len() == b.len(),
        forall|i: int| 0 <= i < a.len() ==> a[i] == b[i],
    ensures
        checksum16(a) == checksum16(b),
{
    assert(a =~= b);
}

/// Two sequences that differ in the byte at `at` and nowhere else.
pub open spec fn differ_in_one_byte(a: Seq<u8>, b: Seq<u8>, at: int) -> bool {
    &&& a.len() == b.len()
    &&& 0 <= at < a.len()
    &&& a[at] != b[at]
    &&& forall|i: int| 0 <= i < a.len() && i != at ==> a[i] == b[i]
}

/// For a fixed byte, a round maps different accumulators to different
/// accumulators.
pub proof fn lemma_step_keeps_apart(a: u16, b: u16, c: u8)
    requires
        a != b,
    ensures
        crc_step(a, c) != crc_step(b, c),
{
    assert(a != b ==> crc_step(a, c) != crc_step(b, c)) by (bit_vector);
}

/// For a fixed accumulator, a round maps different bytes to different
/// accumulators.
pub proof fn lemma_step_tells_bytes_apart(acc: u16, c: u8, d: u8)
    requires
        c != d,
    ensures
        crc_step(acc, c) != crc_step(acc, d),
{
    assert(c != d ==> crc_step(acc, c) != crc_step(acc, d)) by (bit_vector);
}

/// The checksum detects every change that stays within one byte: two
/// sequences of one length that differ in exactly one position never have
/// the same checksum.
pub proof fn lemma_checksum_detects_byte_change(a: Seq<u8>, b: Seq<u8>, at: int)
    requires
        differ_in_one_byte(a, b, at),
    ensures
        checksum16(a) != checksum16(b),
{
    let x = crc_state(a);
    let y = crc_state(b);
    assert(x != y) by {
        lemma_states_apart(a, b, at);
    }
    assert(x != y ==> x ^ 0xFFFF != y ^ 0xFFFF) by (bit_vector);
}

proof fn lemma_states_apart(a: Seq<u8>, b: Seq<u8>, at: int)
    requires
        differ_in_one_byte(a, b, at),
    ensures
        crc_state(a) != crc_state(b),
    decreases a.len(),
{
    let n = a.len() - 1;
    if at == n {
        assert(a.drop_last() =~= b.drop_last());
        lemma_step_tells_bytes_apart(crc_state(a.drop_last()), a.last(), b.last());
    } else {
        assert(differ_in_one_byte(a.drop_last(), b.drop_last(), at));
        lemma_states_apart(a.drop_last(), b.drop_last(), at);
        lemma_step_keeps_apart(crc_state(a.drop_last()), crc_state(b.drop_last()), a.last());
    }
}

} // verus!
