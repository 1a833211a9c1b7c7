use bulletproofs::{BulletproofGens, PedersenGens, ProofError, RangeProof};
use curve25519_dalek_ng::scalar::Scalar;
use merlin::Transcript;
use range_proof_verifier::layout::{
    is_all_zero, slot_holds_point, COMMITMENT_LEN, ELEMENT_LEN, HEAD_ELEMENTS, HEAD_POINTS, PARTY_COUNT,
    PROOF_ELEMENTS, PROOF_LEN, RANGE_BITS, ROUNDS,
};
use range_proof_verifier::outcome::{
    RejectReason, VerificationOutcome, STATUS_BAD_REQUEST, STATUS_OK,
};
use range_proof_verifier::rangeproof::{decode_commitment, decode_proof, outcome_of_verification};
use range_proof_verifier::request::{evaluate, verify_request};
use range_proof_verifier::setup::ParameterSet;

const ACCEPTED: VerificationOutcome = VerificationOutcome::Accepted;
const MALFORMED_PROOF: VerificationOutcome =
    VerificationOutcome::Rejected(RejectReason::MalformedProof);
const MALFORMED_COMMITMENT: VerificationOutcome =
    VerificationOutcome::Rejected(RejectReason::MalformedCommitment);
const FAILED: VerificationOutcome =
    VerificationOutcome::Rejected(RejectReason::ProtocolVerificationFailed);

fn prove_bits(value: u64, bits: usize) -> (Vec<u8>, Vec<u8>) {
    let pc_gens = PedersenGens::default();
    let bp_gens = BulletproofGens::new(64, 1);
    let mut transcript = Transcript::new(b"ProveKnowledgeOfSecret");
    let blind = Scalar::from(123456789u64);
    let (proof, commitment) =
        RangeProof::prove_single(&bp_gens, &pc_gens, &mut transcript, value, &blind, bits)
            .expect("proving a value in range succeeds");
    (proof.to_bytes(), commitment.as_bytes().to_vec())
}

fn prove(value: u64) -> (Vec<u8>, Vec<u8>) {
    prove_bits(value, 64)
}

fn with_element(proof: &[u8], slot: usize, element: [u8; 32]) -> Vec<u8> {
    let mut changed = proof.to_vec();
    changed[slot * 32..(slot + 1) * 32].copy_from_slice(&element);
    changed
}

#[test]
fn layout_constants_describe_a_64_bit_proof() {
    assert_eq!(ELEMENT_LEN, 32);
    assert_eq!(RANGE_BITS, 64);
    assert_eq!(PARTY_COUNT, 1);
    assert_eq!(1usize << ROUNDS, RANGE_BITS);
    assert_eq!(HEAD_ELEMENTS, 7);
    assert_eq!(HEAD_POINTS, 4);
    assert_eq!(PROOF_ELEMENTS, 21);
    assert_eq!(PROOF_LEN, 672);
    assert_eq!(COMMITMENT_LEN, 32);
    assert_eq!(STATUS_OK, 200);
    assert_eq!(STATUS_BAD_REQUEST, 400);
}

#[test]
fn point_slots_are_the_head_points_and_the_round_pairs() {
    let expected = [
        true, true, true, true, false, false, false, true, true, true, true, true, true, true,
        true, true, true, true, true, false, false,
    ];
    for (slot, is_point) in expected.iter().enumerate() {
        assert_eq!(slot_holds_point(slot), *is_point, "slot {}", slot);
    }
    assert!(!slot_holds_point(21));
    assert!(!slot_holds_point(usize::MAX));
}

#[test]
fn parameter_set_is_sized_for_one_64_bit_proof() {
    let params = ParameterSet::generate();
    assert_eq!(params.bit_width(), 64);
    assert_eq!(params.party_count(), 1);
}

#[test]
fn verification_result_maps_to_outcome() {
    assert_eq!(outcome_of_verification(Ok(())), ACCEPTED);
    assert_eq!(outcome_of_verification(Err(ProofError::VerificationError)), FAILED);
    assert_eq!(outcome_of_verification(Err(ProofError::FormatError)), FAILED);
    assert_eq!(outcome_of_verification(Err(ProofError::InvalidBitsize)), FAILED);
    assert_eq!(outcome_of_verification(Err(ProofError::InvalidGeneratorsLength)), FAILED);
    assert!(outcome_of_verification(Ok(())).is_accepted());
    assert!(!outcome_of_verification(Err(ProofError::VerificationError)).is_accepted());
}

#[test]
fn outcome_responses_follow_the_table() {
    let accepted = ACCEPTED.response();
    assert_eq!((accepted.status, accepted.body), (200, "Proof verified successfully"));
    let proof = MALFORMED_PROOF.response();
    assert_eq!((proof.status, proof.body), (400, "Invalid proof format"));
    let commitment = MALFORMED_COMMITMENT.response();
    assert_eq!((commitment.status, commitment.body), (400, "Invalid committed value"));
    let failed = FAILED.response();
    assert_eq!((failed.status, failed.body), (400, "Proof verification failed"));
}

#[test]
fn empty_fields_are_malformed() {
    let params = ParameterSet::generate();
    let (proof, commitment) = prove(42);
    assert_eq!(evaluate(&params, &[], &commitment), MALFORMED_PROOF);
    assert_eq!(evaluate(&params, &proof, &[]), MALFORMED_COMMITMENT);
    assert_eq!(decode_proof(&[]).err(), Some(RejectReason::MalformedProof));
    assert_eq!(decode_commitment(&[]).err(), Some(RejectReason::MalformedCommitment));
}

#[test]
fn truncated_fields_are_malformed() {
    let params = ParameterSet::generate();
    let (proof, commitment) = prove(42);
    for kept in [1usize, 31, 32, 224, 288, 608, 640, 671] {
        assert_eq!(evaluate(&params, &proof[..kept], &commitment), MALFORMED_PROOF, "kept {}", kept);
    }
    for kept in [1usize, 16, 31] {
        assert_eq!(
            evaluate(&params, &proof, &commitment[..kept]),
            MALFORMED_COMMITMENT,
            "kept {}",
            kept
        );
    }
}

#[test]
fn overlong_fields_are_malformed() {
    let params = ParameterSet::generate();
    let (proof, commitment) = prove(42);
    let mut long_proof = proof.clone();
    long_proof.extend_from_slice(&[0u8; 64]);
    assert_eq!(evaluate(&params, &long_proof, &commitment), MALFORMED_PROOF);
    let mut long_commitment = commitment.clone();
    long_commitment.push(0);
    assert_eq!(evaluate(&params, &proof, &long_commitment), MALFORMED_COMMITMENT);
}

#[test]
fn all_zero_fields_are_malformed_at_every_length() {
    let params = ParameterSet::generate();
    let (proof, commitment) = prove(42);
    for len in [1usize, 32, 64, 224, 671, 672, 673, 1344] {
        assert_eq!(evaluate(&params, &vec![0u8; len], &commitment), MALFORMED_PROOF, "len {}", len);
    }
    for len in [1usize, 31, 32, 33, 64] {
        assert_eq!(
            evaluate(&params, &proof, &vec![0u8; len]),
            MALFORMED_COMMITMENT,
            "len {}",
            len
        );
    }
}

#[test]
fn all_zero_proof_of_full_length_is_malformed() {
    let params = ParameterSet::generate();
    let (_, commitment) = prove(42);
    assert_eq!(evaluate(&params, &[0u8; 672], &commitment), MALFORMED_PROOF);
    assert_eq!(decode_proof(&[0u8; 672]).err(), Some(RejectReason::MalformedProof));
    let response = verify_request(&[0u8; 672], &commitment);
    assert_eq!((response.status, response.body), (400, "Invalid proof format"));
}

#[test]
fn all_zero_commitment_is_malformed() {
    let params = ParameterSet::generate();
    let (proof, _) = prove(42);
    assert_eq!(decode_commitment(&[0u8; 32]).err(), Some(RejectReason::MalformedCommitment));
    assert_eq!(evaluate(&params, &proof, &[0u8; 32]), MALFORMED_COMMITMENT);
    let response = verify_request(&proof, &[0u8; 32]);
    assert_eq!((response.status, response.body), (400, "Invalid committed value"));
}

#[test]
fn proof_with_one_byte_set_is_not_all_zero() {
    let params = ParameterSet::generate();
    let (_, commitment) = prove(42);
    let mut nearly = vec![0u8; 672];
    nearly[671] = 1;
    assert!(!is_all_zero(&nearly));
    assert_eq!(evaluate(&params, &nearly, &commitment), FAILED);
}

#[test]
fn all_zero_test_reads_every_byte() {
    assert!(is_all_zero(&[]));
    assert!(is_all_zero(&[0]));
    assert!(is_all_zero(&[0u8; 672]));
    assert!(!is_all_zero(&[1]));
    assert!(!is_all_zero(&[0, 0, 0, 7]));
    assert!(!is_all_zero(&[7, 0, 0, 0]));
    let mut middle = [0u8; 32];
    middle[17] = 0x80;
    assert!(!is_all_zero(&middle));
}

#[test]
fn scalar_just_below_the_group_order_is_canonical() {
    let params = ParameterSet::generate();
    let (proof, commitment) = prove(42);
    let mut order = [0u8; 32];
    order[..16].copy_from_slice(&[
        0xed, 0xd3, 0xf5, 0x5c, 0x1a, 0x63, 0x12, 0x58, 0xd6, 0x9c, 0xf7, 0xa2, 0xde, 0xf9, 0xde,
        0x14,
    ]);
    order[31] = 0x10;
    let mut below = order;
    below[0] = 0xec;
    for slot in [4usize, 5, 6, 19, 20] {
        assert!(decode_proof(&with_element(&proof, slot, below)).is_ok(), "slot {}", slot);
        assert_eq!(
            evaluate(&params, &with_element(&proof, slot, below), &commitment),
            FAILED,
            "slot {}",
            slot
        );
        assert_eq!(
            evaluate(&params, &with_element(&proof, slot, order), &commitment),
            MALFORMED_PROOF,
            "slot {}",
            slot
        );
    }
}

#[test]
fn commitment_that_is_no_point_is_malformed() {
    let params = ParameterSet::generate();
    let (proof, commitment) = prove(42);
    assert_eq!(evaluate(&params, &proof, &[0xffu8; 32]), MALFORMED_COMMITMENT);
    let mut negative = [0u8; 32];
    negative[0] = 1;
    assert_eq!(evaluate(&params, &proof, &negative), MALFORMED_COMMITMENT);
    assert_eq!(decode_commitment(&[0xffu8; 32]).err(), Some(RejectReason::MalformedCommitment));
    assert!(decode_commitment(&commitment).is_ok());
}

#[test]
fn proof_with_a_scalar_out_of_range_is_malformed() {
    let params = ParameterSet::generate();
    let (proof, commitment) = prove(42);
    for slot in [4usize, 5, 6, 19, 20] {
        let changed = with_element(&proof, slot, [0xffu8; 32]);
        assert_eq!(evaluate(&params, &changed, &commitment), MALFORMED_PROOF, "slot {}", slot);
    }
}

#[test]
fn proof_with_a_point_off_the_curve_is_malformed() {
    let params = ParameterSet::generate();
    let (proof, commitment) = prove(42);
    for slot in [0usize, 1, 2, 3, 7, 8, 12, 17, 18] {
        let changed = with_element(&proof, slot, [0xffu8; 32]);
        assert_eq!(evaluate(&params, &changed, &commitment), MALFORMED_PROOF, "slot {}", slot);
    }
}

#[test]
fn well_formed_proof_decodes() {
    let (proof, _) = prove(42);
    assert!(decode_proof(&proof).is_ok());
    let changed = with_element(&proof, 4, [0u8; 32]);
    assert!(decode_proof(&changed).is_ok());
}

#[test]
fn proof_over_a_narrower_range_is_rejected() {
    let params = ParameterSet::generate();
    for bits in [8usize, 16, 32] {
        let (proof, commitment) = prove_bits(42, bits);
        assert_ne!(proof.len(), PROOF_LEN);
        assert_eq!(evaluate(&params, &proof, &commitment), MALFORMED_PROOF, "bits {}", bits);
    }
}

#[test]
fn flipping_a_byte_of_a_valid_proof_is_never_accepted() {
    let params = ParameterSet::generate();
    let (proof, commitment) = prove(42);
    assert_eq!(evaluate(&params, &proof, &commitment), ACCEPTED);
    for slot in 0..21usize {
        for offset in [0usize, 13, 31] {
            let mut changed = proof.clone();
            changed[slot * 32 + offset] ^= 0x01;
            let outcome = evaluate(&params, &changed, &commitment);
            assert!(
                outcome == FAILED || outcome == MALFORMED_PROOF,
                "slot {} offset {}: {:?}",
                slot,
                offset,
                outcome
            );
        }
    }
}
