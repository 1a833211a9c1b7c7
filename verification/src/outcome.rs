//! The outcomes of a verification request and the responses that report them.

use vstd::prelude::*;

verus! {

/// Why a request was turned down.
#[derive(Clone, Copy, Debug, PartialEq, Eq, Structural)]
pub enum RejectReason {
    /// The proof bytes are not the encoding of a single 64-bit range proof.
    MalformedProof,
    /// The commitment bytes are not the encoding of a curve point.
    MalformedCommitment,
    /// Proof and commitment decode, but the proof does not hold of the commitment.
    ProtocolVerificationFailed,
}

/// What a request resolves to: exactly one of these, never anything in between.
#[derive(Clone, Copy, Debug, PartialEq, Eq, Structural)]
pub enum VerificationOutcome {
    Accepted,
    Rejected(RejectReason),
}

/// Status code reported for an accepted proof.
pub const STATUS_OK: u16 = 200;

/// Status code reported for every rejection.
pub const STATUS_BAD_REQUEST: u16 = 400;

/// A status code and a fixed message, free of any internal detail.
#[derive(Clone, Copy, Debug)]
pub struct Response {
    pub status: u16,
    pub body: &'static str,
}

/// The status code that reports `outcome`.
pub open spec fn status_of(outcome: VerificationOutcome) -> u16 {
    match outcome {
        VerificationOutcome::Accepted => STATUS_OK,
        VerificationOutcome::Rejected(_) => STATUS_BAD_REQUEST,
    }
}

/// The message that reports `outcome`.
pub open spec fn body_of(outcome: VerificationOutcome) -> Seq<char> {
    match outcome {
        VerificationOutcome::Accepted => "Proof verified successfully"@,
        VerificationOutcome::Rejected(RejectReason::MalformedProof) => "Invalid proof format"@,
        VerificationOutcome::Rejected(RejectReason::MalformedCommitment) => "Invalid committed value"@,
        VerificationOutcome::Rejected(RejectReason::ProtocolVerificationFailed) => "Proof verification failed"@,
    }
}

impl Response {
    /// Whether this response is the one that reports `outcome`.
    pub open spec fn reports(self, outcome: VerificationOutcome) -> bool {
        self.status == status_of(outcome) && self.body@ == body_of(outcome)
    }
}

impl VerificationOutcome {
    /// Whether the proof was accepted.
    pub fn is_accepted(&self) -> (accepted: bool)
        ensures
            accepted == (*self == VerificationOutcome::Accepted),
    {
        match self {
            VerificationOutcome::Accepted => true,
            VerificationOutcome::Rejected(_) => false,
        }
    }

    /// The response that reports this outcome.
    pub fn response(&self) -> (response: Response)
        ensures
            response.reports(*self),
    {
        match self {
            VerificationOutcome::Accepted => Response {
                status: STATUS_OK,
                body: "Proof verified successfully",
            },
            VerificationOutcome::Rejected(RejectReason::MalformedProof) => Response {
                status: STATUS_BAD_REQUEST,
                body: "Invalid proof format",
            },
            VerificationOutcome::Rejected(RejectReason::MalformedCommitment) => Response {
                status: STATUS_BAD_REQUEST,
                body: "Invalid committed value",
            },
            VerificationOutcome::Rejected(RejectReason::ProtocolVerificationFailed) => Response {
                status: STATUS_BAD_REQUEST,
                body: "Proof verification failed",
            },
        }
    }
}

/// No two outcomes share a message, so a response tells which outcome it
/// reports; and the status is `STATUS_OK` for an accepted proof alone.
pub proof fn lemma_response_identifies_outcome(
    response: Response,
    first: VerificationOutcome,
    second: VerificationOutcome,
)
    requires
        response.reports(first),
        response.reports(second),
    ensures
        first == second,
        response.status == STATUS_OK <==> first == VerificationOutcome::Accepted,
{
    reveal_strlit("Proof verified successfully");
    reveal_strlit("Invalid proof format");
    reveal_strlit("Invalid committed value");
    reveal_strlit("Proof verification failed");
    assert(body_of(first).len() == body_of(second).len());
}

} // verus!
