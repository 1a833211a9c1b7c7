//! Decoded proofs and commitments: how they are decoded from bytes and
//! how one is verified against the other.

use vstd::prelude::*;
use vstd::slice::slice_subrange;
use crate::layout::{
    commitment_well_formed, element, holds_point, holds_scalar, is_all_zero,
    lemma_proof_length_parses, proof_well_formed, slot_holds_point, COMMITMENT_LEN, ELEMENT_LEN,
    PROOF_ELEMENTS, PROOF_LEN, RANGE_BITS,
};
use crate::outcome::{RejectReason, VerificationOutcome};
use crate::primitives::{
    compress_point, decompress_point, parse_range_proof, point_decompresses, point_encoding,
    proof_encoding, verify_single,
};
use crate::setup::{ParameterSet, VerifierTranscript};

verus! {

/// A range proof that has passed decoding. Its view is its encoding.
pub struct DecodedProof {
    inner: bulletproofs::RangeProof,
}

/// A commitment that has passed decoding: a point on the curve. Its view is
/// its encoding.
pub struct CommitmentPoint {
    point: curve25519_dalek_ng::ristretto::RistrettoPoint,
}

impl View for DecodedProof {
    type V = Seq<u8>;

    closed spec fn view(&self) -> Seq<u8> {
        proof_encoding(self.inner)
    }
}

impl View for CommitmentPoint {
    type V = Seq<u8>;

    closed spec fn view(&self) -> Seq<u8> {
        point_encoding(self.point)
    }
}

impl DecodedProof {
    /// Only well-formed encodings are ever decoded.
    #[verifier::type_invariant]
    spec fn decoded_from_well_formed(self) -> bool {
        proof_well_formed(proof_encoding(self.inner))
    }
}

impl CommitmentPoint {
    /// Only well-formed encodings are ever decoded.
    #[verifier::type_invariant]
    spec fn decoded_from_well_formed(self) -> bool {
        commitment_well_formed(point_encoding(self.point))
    }
}

/// Decodes a range proof. Succeeds exactly on the well-formed encodings;
/// every other byte sequence is a `MalformedProof`. No verification work
/// is done here.
pub fn decode_proof(bytes: &[u8]) -> (decoded: Result<DecodedProof, RejectReason>)
    ensures
        decoded.is_ok() <==> proof_well_formed(bytes@),
        decoded matches Ok(proof) ==> proof@ == bytes@,
        decoded matches Err(reason) ==> reason == RejectReason::MalformedProof,
{
    if bytes.len() != PROOF_LEN {
        return Err(RejectReason::MalformedProof);
    }
    if is_all_zero(bytes) {
        return Err(RejectReason::MalformedProof);
    }
    proof {
        lemma_proof_length_parses();
    }
    let inner = match parse_range_proof(bytes) {
        Ok(inner) => inner,
        Err(_) => {
            assert(holds_scalar(4) && holds_scalar(5) && holds_scalar(6) && holds_scalar(19)
                && holds_scalar(20));
            return Err(RejectReason::MalformedProof);
        },
    };
    let mut slot: usize = 0;
    while slot < PROOF_ELEMENTS
        invariant
            slot <= PROOF_ELEMENTS,
            bytes@.len() == PROOF_LEN,
            forall|earlier: int|
                0 <= earlier < slot && #[trigger] holds_point(earlier) ==> point_decompresses(
                    element(bytes@, earlier),
                ),
        decreases PROOF_ELEMENTS - slot,
    {
        if slot_holds_point(slot) {
            let chunk = slice_subrange(bytes, slot * ELEMENT_LEN, (slot + 1) * ELEMENT_LEN);
            if decompress_point(chunk).is_none() {
                return Err(RejectReason::MalformedProof);
            }
        }
        slot += 1;
    }
    Ok(DecodedProof { inner })
}

/// Decodes a commitment. Succeeds exactly on the well-formed encodings;
/// every other byte sequence is a `MalformedCommitment`.
pub fn decode_commitment(bytes: &[u8]) -> (decoded: Result<CommitmentPoint, RejectReason>)
    ensures
        decoded.is_ok() <==> commitment_well_formed(bytes@),
        decoded matches Ok(commitment) ==> commitment@ == bytes@,
        decoded matches Err(reason) ==> reason == RejectReason::MalformedCommitment,
{
    if bytes.len() != COMMITMENT_LEN {
        return Err(RejectReason::MalformedCommitment);
    }
    if is_all_zero(bytes) {
        return Err(RejectReason::MalformedCommitment);
    }
    match decompress_point(bytes) {
        Some(point) => Ok(CommitmentPoint { point }),
        None => Err(RejectReason::MalformedCommitment),
    }
}

/// The outcome that the result of a range-proof verification stands for:
/// accepted if it succeeded, and `ProtocolVerificationFailed` whatever the
/// error was.
pub fn outcome_of_verification(result: Result<(), bulletproofs::ProofError>) -> (outcome:
    VerificationOutcome)
    ensures
        result.is_ok() ==> outcome == VerificationOutcome::Accepted,
        result.is_err() ==> outcome == VerificationOutcome::Rejected(
            RejectReason::ProtocolVerificationFailed,
        ),
{
    match result {
        Ok(_) => VerificationOutcome::Accepted,
        Err(_) => VerificationOutcome::Rejected(RejectReason::ProtocolVerificationFailed),
    }
}

/// Verifies a decoded proof against a decoded commitment, over `RANGE_BITS`
/// bits. Proof and transcript are used up. The inputs have decoded, so the
/// outcome is never a malformed one.
pub fn verify(
    proof: DecodedProof,
    commitment: CommitmentPoint,
    params: &ParameterSet,
    transcript: VerifierTranscript,
) -> (outcome: VerificationOutcome)
    ensures
        outcome == VerificationOutcome::Accepted || outcome == VerificationOutcome::Rejected(
            RejectReason::ProtocolVerificationFailed,
        ),
{
    let compressed = compress_point(&commitment.point);
    let mut running = transcript.into_running();
    let result = verify_single(
        &proof.inner,
        params.range_proof_generators(),
        params.commitment_generators(),
        &mut running,
        &compressed,
        RANGE_BITS,
    );
    outcome_of_verification(result)
}

} // verus!
