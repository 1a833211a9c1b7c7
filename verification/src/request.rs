//! A request from end to end: decode both fields, verify, and report the
//! one outcome that the request resolves to.

use vstd::prelude::*;
use crate::layout::{commitment_well_formed, proof_well_formed};
use crate::outcome::{RejectReason, Response, VerificationOutcome};
use crate::rangeproof::{decode_commitment, decode_proof, verify};
use crate::setup::{ParameterSet, VerifierTranscript};

verus! {

/// What a client sends: a serialized range proof and a serialized commitment.
#[derive(Clone, Debug)]
pub struct ProofRequest {
    pub proof: Vec<u8>,
    pub committed_value: Vec<u8>,
}

/// The rejection that decoding ends in, if it ends in one. The proof is
/// looked at first, so a request with two bad fields is a `MalformedProof`.
pub open spec fn decoding_rejection(proof: Seq<u8>, commitment: Seq<u8>) -> Option<RejectReason> {
    if !proof_well_formed(proof) {
        Some(RejectReason::MalformedProof)
    } else if !commitment_well_formed(commitment) {
        Some(RejectReason::MalformedCommitment)
    } else {
        None
    }
}

/// Whether `outcome` is one that a request with these two fields may
/// resolve to. A request that fails decoding has a single such outcome.
/// One that decodes is accepted or fails verification, as the range-proof
/// verification finds.
pub open spec fn may_resolve_to(
    proof: Seq<u8>,
    commitment: Seq<u8>,
    outcome: VerificationOutcome,
) -> bool {
    match decoding_rejection(proof, commitment) {
        Some(reason) => outcome == VerificationOutcome::Rejected(reason),
        None => outcome == VerificationOutcome::Accepted || outcome
            == VerificationOutcome::Rejected(RejectReason::ProtocolVerificationFailed),
    }
}

/// Whether `response` reports an outcome that a request with these two
/// fields may resolve to.
pub open spec fn may_respond_with(proof: Seq<u8>, commitment: Seq<u8>, response: Response) -> bool {
    match decoding_rejection(proof, commitment) {
        Some(reason) => response.reports(VerificationOutcome::Rejected(reason)),
        None => response.reports(VerificationOutcome::Accepted) || response.reports(
            VerificationOutcome::Rejected(RejectReason::ProtocolVerificationFailed),
        ),
    }
}

/// Resolves a request against generators that the caller holds. Decoding
/// comes first and cuts the work short: a malformed field is reported
/// without any verification being run.
pub fn evaluate(params: &ParameterSet, proof: &[u8], committed_value: &[u8]) -> (outcome:
    VerificationOutcome)
    ensures
        may_resolve_to(proof@, committed_value@, outcome),
{
    let decoded_proof = match decode_proof(proof) {
        Ok(decoded) => decoded,
        Err(reason) => {
            return VerificationOutcome::Rejected(reason);
        },
    };
    let commitment = match decode_commitment(committed_value) {
        Ok(decoded) => decoded,
        Err(reason) => {
            return VerificationOutcome::Rejected(reason);
        },
    };
    verify(decoded_proof, commitment, params, VerifierTranscript::for_protocol())
}

/// Resolves a request and reports the outcome.
pub fn respond(params: &ParameterSet, request: &ProofRequest) -> (response: Response)
    ensures
        may_respond_with(request.proof@, request.committed_value@, response),
{
    let outcome = evaluate(params, request.proof.as_slice(), request.committed_value.as_slice());
    outcome.response()
}

/// Resolves a request from its two fields, with generators built for this
/// one call, and reports the outcome.
pub fn verify_request(proof: &[u8], committed_value: &[u8]) -> (response: Response)
    ensures
        may_respond_with(proof@, committed_value@, response),
{
    let params = ParameterSet::generate();
    let outcome = evaluate(&params, proof, committed_value);
    outcome.response()
}

} // verus!
