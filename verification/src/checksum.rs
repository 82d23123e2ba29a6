//! The packet checksum: the report id plus the first fifteen bytes of the
//! report, reduced to the low byte and subtracted from 0x55 with eight-bit
//! wraparound. The result is stored in the final byte of the report.

use vstd::prelude::*;

verus! {

/// Sum of the first `n` bytes of `s`, as an unbounded integer.
pub open spec fn byte_sum(s: Seq<u8>, n: int) -> int
    decreases n,
{
    if n <= 0 {
        0
    } else {
        byte_sum(s, n - 1) + s[n - 1]
    }
}

/// `0x55 - v` with eight-bit wraparound.
pub open spec fn complement_byte(v: u8) -> u8 {
    if v <= 0x55 {
        (0x55 - v) as u8
    } else {
        (0x55 - v + 0x100) as u8
    }
}

/// The checksum of a sixteen-byte report: the report id plus the fifteen
/// bytes preceding the checksum byte, masked to the low byte, subtracted
/// from 0x55 with wraparound.
pub open spec fn checksum_of(s: Seq<u8>, report_id: u8) -> u8 {
    complement_byte(((report_id + byte_sum(s, 15)) % 256) as u8)
}

/// `s` with its checksum byte rewritten from its current first fifteen bytes.
pub open spec fn with_checksum(s: Seq<u8>, report_id: u8) -> Seq<u8> {
    s.update(15, checksum_of(s, report_id))
}

/// The stored checksum byte agrees with a recomputation over the current
/// contents of the report.
pub open spec fn checksum_valid(s: Seq<u8>, report_id: u8) -> bool {
    s[15] == checksum_of(s, report_id)
}

/// Two buffers that agree on their first `n` bytes have the same partial sum.
pub proof fn lemma_byte_sum_agree(s1: Seq<u8>, s2: Seq<u8>, n: int)
    requires
        n <= s1.len(),
        n <= s2.len(),
        forall|i: int| 0 <= i < n ==> s1[i] == s2[i],
    ensures
        byte_sum(s1, n) == byte_sum(s2, n),
    decreases n,
{
    if n > 0 {
        lemma_byte_sum_agree(s1, s2, n - 1);
    }
}

/// Law: the checksum is a pure function of the first fifteen bytes and the
/// report id — any two buffers that agree on those bytes have the same
/// checksum, so recomputing it for a fixed buffer always yields one value.
pub proof fn lemma_checksum_deterministic(s1: Seq<u8>, s2: Seq<u8>, report_id: u8)
    requires
        15 <= s1.len(),
        15 <= s2.len(),
        forall|i: int| 0 <= i < 15 ==> s1[i] == s2[i],
    ensures
        checksum_of(s1, report_id) == checksum_of(s2, report_id),
{
    lemma_byte_sum_agree(s1, s2, 15);
}

/// Law: storing the checksum touches only the checksum byte, so the stored
/// byte still matches a recomputation over the resulting buffer. This is why
/// every field setter leaves the report with a valid checksum.
pub proof fn lemma_with_checksum_valid(s: Seq<u8>, report_id: u8)
    requires
        s.len() == 16,
    ensures
        checksum_valid(with_checksum(s, report_id), report_id),
{
    lemma_checksum_deterministic(s, with_checksum(s, report_id), report_id);
}

} // verus!
