//! The wire encodings of a range proof and of a commitment.
//!
//! A proof over `RANGE_BITS` bits is a row of thirty-two-byte elements: the
//! four points A, S, T1, T2; three scalars; one pair of points for each round
//! of the inner-product argument; and two closing scalars. A commitment is a
//! single compressed point. A field of nothing but zero bytes stands for no
//! proof and no commitment.

use vstd::prelude::*;
use crate::primitives::{parse_admits_length, point_decompresses, scalar_canonical};

verus! {

/// Bytes in one encoded point or scalar.
pub const ELEMENT_LEN: usize = 32;

/// Width of the range that a proof speaks of: values lie in `[0, 2^64)`.
pub const RANGE_BITS: usize = 64;

/// Number of values that one proof covers: proofs are never aggregated.
pub const PARTY_COUNT: usize = 1;

/// Rounds of the inner-product argument: the binary logarithm of `RANGE_BITS`.
pub const ROUNDS: usize = 6;

/// Elements that open a proof: four points and three scalars.
pub const HEAD_ELEMENTS: usize = 7;

/// Points among the opening elements; they come first.
pub const HEAD_POINTS: usize = 4;

/// Elements in a whole proof.
pub const PROOF_ELEMENTS: usize = HEAD_ELEMENTS + 2 * ROUNDS + 2;

/// Bytes in a whole proof.
pub const PROOF_LEN: usize = PROOF_ELEMENTS * ELEMENT_LEN;

/// Bytes in a commitment.
pub const COMMITMENT_LEN: usize = ELEMENT_LEN;

/// The constants fit together: one round halves the width down to a single
/// bit, and a proof is twenty-one elements, 672 bytes.
pub proof fn lemma_layout_fits_range()
    ensures
        1usize << ROUNDS == RANGE_BITS,
        PROOF_ELEMENTS == 21,
        PROOF_LEN == 672,
        COMMITMENT_LEN == 32,
{
    assert(1usize << 6 == 64) by (bit_vector);
}

/// A proof has one of the lengths that the parser lets through, the one
/// with `ROUNDS` rounds.
pub proof fn lemma_proof_length_parses()
    ensures
        parse_admits_length(PROOF_LEN as nat),
        (PROOF_LEN / ELEMENT_LEN - 9) / 2 == ROUNDS,
{
}

/// The element that stands at `slot` in `bytes`.
pub open spec fn element(bytes: Seq<u8>, slot: int) -> Seq<u8> {
    bytes.subrange(slot * ELEMENT_LEN as int, (slot + 1) * ELEMENT_LEN as int)
}

/// Whether the element at `slot` of a proof is a compressed point.
pub open spec fn holds_point(slot: int) -> bool {
    (0 <= slot < HEAD_POINTS) || (HEAD_ELEMENTS <= slot < HEAD_ELEMENTS + 2 * ROUNDS)
}

/// Whether the element at `slot` of a proof is a scalar.
pub open spec fn holds_scalar(slot: int) -> bool {
    (HEAD_POINTS <= slot < HEAD_ELEMENTS) || (HEAD_ELEMENTS + 2 * ROUNDS <= slot < PROOF_ELEMENTS)
}

/// Whether every byte of `bytes` is zero.
pub open spec fn all_zero(bytes: Seq<u8>) -> bool {
    forall|at: int| 0 <= at < bytes.len() ==> bytes[at] == 0
}

/// Whether `bytes` encode a single range proof over `RANGE_BITS` bits: they
/// have the one length such a proof has, they are not all zero, every
/// point among the elements decompresses, and every scalar is canonical.
pub open spec fn proof_well_formed(bytes: Seq<u8>) -> bool {
    &&& bytes.len() == PROOF_LEN
    &&& !all_zero(bytes)
    &&& forall|slot: int| #[trigger] holds_point(slot) ==> point_decompresses(element(bytes, slot))
    &&& forall|slot: int| #[trigger] holds_scalar(slot) ==> scalar_canonical(element(bytes, slot))
}

/// Whether `bytes` encode a commitment: one compressed point, not all
/// zero, that decompresses.
pub open spec fn commitment_well_formed(bytes: Seq<u8>) -> bool {
    bytes.len() == COMMITMENT_LEN && !all_zero(bytes) && point_decompresses(bytes)
}

/// Whether the element at `slot` of a proof is a compressed point.
pub fn slot_holds_point(slot: usize) -> (answer: bool)
    ensures
        answer == holds_point(slot as int),
{
    slot < HEAD_POINTS || (HEAD_ELEMENTS <= slot && slot < HEAD_ELEMENTS + 2 * ROUNDS)
}

/// Whether every byte of `bytes` is zero.
pub fn is_all_zero(bytes: &[u8]) -> (answer: bool)
    ensures
        answer == all_zero(bytes@),
{
    let mut at: usize = 0;
    while at < bytes.len()
        invariant
            at <= bytes.len(),
            forall|earlier: int| 0 <= earlier < at ==> bytes@[earlier] == 0,
        decreases bytes.len() - at,
    {
        if bytes[at] != 0 {
            return false;
        }
        at += 1;
    }
    true
}

/// Every element of a proof is a point or a scalar, and none is both.
pub proof fn lemma_slots_are_points_or_scalars(slot: int)
    ensures
        0 <= slot < PROOF_ELEMENTS <==> holds_point(slot) || holds_scalar(slot),
        !(holds_point(slot) && holds_scalar(slot)),
{
}

} // verus!
