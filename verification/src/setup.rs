//! What a verification is run with: the fixed public generators, and a
//! transcript that is made afresh for each run.

use vstd::prelude::*;
use crate::layout::{PARTY_COUNT, RANGE_BITS};
use crate::primitives::{
    bulletproof_generators, generator_bit_capacity, generator_bits, generator_parties,
    generator_party_capacity, merlin_transcript, pedersen_generators, transcript_seeded_with,
};

verus! {

/// The domain-separation label that prover and verifier agree on.
pub const PROTOCOL_LABEL: [u8; 22] = [
    80, 114, 111, 118, 101, 75, 110, 111, 119, 108, 101, 100, 103, 101, 79, 102, 83, 101, 99, 114,
    101, 116,
];

/// The public generators for one proof over `RANGE_BITS` bits: a pair for
/// the Pedersen commitment and a set for the range proof. Built from fixed
/// constants, never changed afterwards, and so free to be shared.
pub struct ParameterSet {
    pedersen: bulletproofs::PedersenGens,
    bulletproof: bulletproofs::BulletproofGens,
}

impl ParameterSet {
    /// Widest range, in bits, that the generators were made for.
    pub closed spec fn bits(&self) -> usize {
        generator_bits(self.bulletproof)
    }

    /// Number of values per proof that the generators were made for.
    pub closed spec fn parties(&self) -> usize {
        generator_parties(self.bulletproof)
    }

    /// A parameter set is always sized for one proof over `RANGE_BITS` bits.
    #[verifier::type_invariant]
    spec fn sized_for_protocol(self) -> bool {
        generator_bits(self.bulletproof) == RANGE_BITS && generator_parties(self.bulletproof)
            == PARTY_COUNT
    }

    /// Builds the generators. Never fails; allocates in proportion to `RANGE_BITS`.
    pub fn generate() -> (params: ParameterSet)
        ensures
            params.bits() == RANGE_BITS,
            params.parties() == PARTY_COUNT,
    {
        ParameterSet {
            pedersen: pedersen_generators(),
            bulletproof: bulletproof_generators(RANGE_BITS, PARTY_COUNT),
        }
    }

    /// Widest range, in bits, that the generators were made for.
    pub fn bit_width(&self) -> (bits: usize)
        ensures
            bits == self.bits(),
            bits == RANGE_BITS,
    {
        proof {
            use_type_invariant(self);
        }
        generator_bit_capacity(&self.bulletproof)
    }

    /// Number of values per proof that the generators were made for.
    pub fn party_count(&self) -> (parties: usize)
        ensures
            parties == self.parties(),
            parties == PARTY_COUNT,
    {
        proof {
            use_type_invariant(self);
        }
        generator_party_capacity(&self.bulletproof)
    }

    /// The generators of the range proof, sized for the protocol.
    pub(crate) fn range_proof_generators(&self) -> (gens: &bulletproofs::BulletproofGens)
        ensures
            generator_bits(*gens) == RANGE_BITS,
            generator_parties(*gens) == PARTY_COUNT,
    {
        proof {
            use_type_invariant(self);
        }
        &self.bulletproof
    }

    /// The generators of the Pedersen commitment.
    pub(crate) fn commitment_generators(&self) -> &bulletproofs::PedersenGens {
        &self.pedersen
    }
}

/// A Fiat-Shamir transcript that has absorbed its label and nothing else.
/// A verification takes it by value, so none is ever used twice.
pub struct VerifierTranscript {
    seeded_with: Ghost<Seq<u8>>,
    inner: merlin::Transcript,
}

impl VerifierTranscript {
    /// The label that the transcript was seeded with.
    pub closed spec fn label(&self) -> Seq<u8> {
        self.seeded_with@
    }

    /// The transcript is the one that its label seeds, untouched since.
    #[verifier::type_invariant]
    spec fn fresh(self) -> bool {
        self.inner == transcript_seeded_with(self.seeded_with@)
    }

    /// A fresh transcript seeded with `label`, whose length must fit in
    /// thirty-two bits. A proof verifies only under the label that it was
    /// made with.
    pub fn new(label: &'static [u8]) -> (transcript: VerifierTranscript)
        requires
            label@.len() <= u32::MAX,
        ensures
            transcript.label() == label@,
    {
        VerifierTranscript { seeded_with: Ghost(label@), inner: merlin_transcript(label) }
    }

    /// A fresh transcript seeded with `PROTOCOL_LABEL`.
    pub fn for_protocol() -> (transcript: VerifierTranscript)
        ensures
            transcript.label() == PROTOCOL_LABEL@,
    {
        VerifierTranscript::new(&PROTOCOL_LABEL)
    }

    /// Gives up the running transcript, to be used once.
    pub(crate) fn into_running(self) -> (running: merlin::Transcript)
        ensures
            running == transcript_seeded_with(self.label()),
    {
        proof {
            use_type_invariant(&self);
        }
        self.inner
    }
}

} // verus!
