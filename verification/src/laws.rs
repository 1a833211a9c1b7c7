//! What holds of every request, whatever the bytes in it.

use vstd::prelude::*;
use crate::layout::{
    all_zero, commitment_well_formed, proof_well_formed, COMMITMENT_LEN, PROOF_LEN,
};
use crate::outcome::{RejectReason, Response, VerificationOutcome, STATUS_OK};
use crate::request::{decoding_rejection, may_resolve_to, may_respond_with};

verus! {

/// A proof field of any length but `PROOF_LEN`, the empty one among them,
/// resolves to `MalformedProof`, whatever the commitment field holds.
pub proof fn lemma_proof_of_wrong_length_is_malformed(
    proof: Seq<u8>,
    commitment: Seq<u8>,
    outcome: VerificationOutcome,
)
    requires
        proof.len() != PROOF_LEN,
        may_resolve_to(proof, commitment, outcome),
    ensures
        outcome == VerificationOutcome::Rejected(RejectReason::MalformedProof),
{
}

/// Next to a well-formed proof, a commitment field of any length but
/// `COMMITMENT_LEN`, the empty one among them, resolves to
/// `MalformedCommitment`.
pub proof fn lemma_commitment_of_wrong_length_is_malformed(
    proof: Seq<u8>,
    commitment: Seq<u8>,
    outcome: VerificationOutcome,
)
    requires
        proof_well_formed(proof),
        commitment.len() != COMMITMENT_LEN,
        may_resolve_to(proof, commitment, outcome),
    ensures
        outcome == VerificationOutcome::Rejected(RejectReason::MalformedCommitment),
{
}

/// A proof field of nothing but zero bytes, of whatever length, resolves
/// to `MalformedProof`.
pub proof fn lemma_all_zero_proof_is_malformed(
    proof: Seq<u8>,
    commitment: Seq<u8>,
    outcome: VerificationOutcome,
)
    requires
        all_zero(proof),
        may_resolve_to(proof, commitment, outcome),
    ensures
        outcome == VerificationOutcome::Rejected(RejectReason::MalformedProof),
{
}

/// Next to a well-formed proof, a commitment field of nothing but zero
/// bytes, of whatever length, resolves to `MalformedCommitment`.
pub proof fn lemma_all_zero_commitment_is_malformed(
    proof: Seq<u8>,
    commitment: Seq<u8>,
    outcome: VerificationOutcome,
)
    requires
        proof_well_formed(proof),
        all_zero(commitment),
        may_resolve_to(proof, commitment, outcome),
    ensures
        outcome == VerificationOutcome::Rejected(RejectReason::MalformedCommitment),
{
}

/// Cutting bytes off the end of a well-formed proof leaves a malformed one.
pub proof fn lemma_truncated_proof_is_malformed(
    proof: Seq<u8>,
    kept: int,
    commitment: Seq<u8>,
    outcome: VerificationOutcome,
)
    requires
        proof_well_formed(proof),
        0 <= kept < proof.len(),
        may_resolve_to(proof.take(kept), commitment, outcome),
    ensures
        outcome == VerificationOutcome::Rejected(RejectReason::MalformedProof),
{
}

/// Cutting bytes off the end of a well-formed commitment leaves a malformed
/// one, which is reported as such next to a well-formed proof.
pub proof fn lemma_truncated_commitment_is_malformed(
    proof: Seq<u8>,
    commitment: Seq<u8>,
    kept: int,
    outcome: VerificationOutcome,
)
    requires
        proof_well_formed(proof),
        commitment_well_formed(commitment),
        0 <= kept < commitment.len(),
        may_resolve_to(proof, commitment.take(kept), outcome),
    ensures
        outcome == VerificationOutcome::Rejected(RejectReason::MalformedCommitment),
{
}

/// Whether a request is turned down at decoding, and for which reason, is
/// settled by its bytes: if one run resolves it to a malformed outcome,
/// every run resolves it to that same outcome, and if one run reaches
/// verification, every run does.
pub proof fn lemma_decoding_verdict_repeats(
    proof: Seq<u8>,
    commitment: Seq<u8>,
    first: VerificationOutcome,
    second: VerificationOutcome,
)
    requires
        may_resolve_to(proof, commitment, first),
        may_resolve_to(proof, commitment, second),
    ensures
        decoding_rejection(proof, commitment).is_some() ==> first == second,
        first == VerificationOutcome::Rejected(RejectReason::MalformedProof) ==> second == first,
        first == VerificationOutcome::Rejected(RejectReason::MalformedCommitment) ==> second
            == first,
{
}

/// A request reaches verification exactly when both fields are well
/// formed, in whichever order they are decoded; and then the outcome is
/// `Accepted` or `ProtocolVerificationFailed`, never a malformed one. This
/// holds whether the commitment is the one the proof was made for or
/// another.
pub proof fn lemma_well_formed_request_reaches_verification(
    proof: Seq<u8>,
    commitment: Seq<u8>,
    outcome: VerificationOutcome,
)
    requires
        may_resolve_to(proof, commitment, outcome),
    ensures
        decoding_rejection(proof, commitment).is_none() <==> proof_well_formed(proof)
            && commitment_well_formed(commitment),
        proof_well_formed(proof) && commitment_well_formed(commitment) <==> outcome
            == VerificationOutcome::Accepted || outcome == VerificationOutcome::Rejected(
            RejectReason::ProtocolVerificationFailed,
        ),
{
}

/// Changing the proof bytes of a request that was accepted, one byte or
/// many, never puts the blame on the commitment: the changed request is
/// accepted, fails verification, or has a malformed proof.
pub proof fn lemma_changed_proof_spares_commitment(
    proof: Seq<u8>,
    changed: Seq<u8>,
    commitment: Seq<u8>,
    outcome: VerificationOutcome,
)
    requires
        may_resolve_to(proof, commitment, VerificationOutcome::Accepted),
        may_resolve_to(changed, commitment, outcome),
    ensures
        outcome != VerificationOutcome::Rejected(RejectReason::MalformedCommitment),
{
}

/// A response with status `STATUS_OK` is given to well-formed requests
/// alone, and every other response names exactly one rejection.
pub proof fn lemma_success_needs_well_formed_request(
    proof: Seq<u8>,
    commitment: Seq<u8>,
    response: Response,
)
    requires
        may_respond_with(proof, commitment, response),
    ensures
        response.status == STATUS_OK ==> proof_well_formed(proof) && commitment_well_formed(
            commitment,
        ),
        response.status == STATUS_OK <==> response.reports(VerificationOutcome::Accepted),
{
    reveal_strlit("Proof verified successfully");
    reveal_strlit("Invalid proof format");
    reveal_strlit("Invalid committed value");
    reveal_strlit("Proof verification failed");
}

} // verus!
