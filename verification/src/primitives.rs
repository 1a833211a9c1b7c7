//! The cryptographic primitives this library builds on, and what it takes
//! of them on trust. Nothing here is proved: each contract restates what the
//! primitive's own source shows.

use vstd::prelude::*;
use crate::layout::element;

verus! {

/// `bulletproofs::RangeProof`: a parsed range proof, opaque here.
#[verifier::external_type_specification]
#[verifier::external_body]
pub struct ExRangeProof(bulletproofs::RangeProof);

/// `bulletproofs::ProofError`: why parsing or verification failed, opaque here.
#[verifier::external_type_specification]
#[verifier::external_body]
pub struct ExProofError(bulletproofs::ProofError);

/// `bulletproofs::PedersenGens`: the two generators of a Pedersen commitment.
#[verifier::external_type_specification]
#[verifier::external_body]
pub struct ExPedersenGens(bulletproofs::PedersenGens);

/// `bulletproofs::BulletproofGens`: the generators of a range proof.
#[verifier::external_type_specification]
#[verifier::external_body]
pub struct ExBulletproofGens(bulletproofs::BulletproofGens);

/// `curve25519_dalek_ng::ristretto::RistrettoPoint`: a point of the Ristretto group.
#[verifier::external_type_specification]
#[verifier::external_body]
pub struct ExRistrettoPoint(curve25519_dalek_ng::ristretto::RistrettoPoint);

/// `curve25519_dalek_ng::ristretto::CompressedRistretto`: a point in its thirty-two-byte form.
#[verifier::external_type_specification]
#[verifier::external_body]
pub struct ExCompressedRistretto(curve25519_dalek_ng::ristretto::CompressedRistretto);

/// `merlin::Transcript`: the running state of a Fiat-Shamir transcript.
#[verifier::external_type_specification]
#[verifier::external_body]
pub struct ExTranscript(merlin::Transcript);

/// Whether `Scalar::from_canonical_bytes` takes the thirty-two bytes
/// `bytes` for a scalar, that is, whether they are the canonical encoding
/// of an integer below the order of the group.
pub uninterp spec fn scalar_canonical(bytes: Seq<u8>) -> bool;

/// The bytes that `bulletproofs::RangeProof::to_bytes` writes for a proof.
pub uninterp spec fn proof_encoding(proof: bulletproofs::RangeProof) -> Seq<u8>;

/// The thirty-two bytes that `RistrettoPoint::compress` gives for a point:
/// its canonical encoding.
pub uninterp spec fn point_encoding(
    point: curve25519_dalek_ng::ristretto::RistrettoPoint,
) -> Seq<u8>;

/// The thirty-two bytes that a `CompressedRistretto` holds.
pub uninterp spec fn compressed_encoding(
    compressed: curve25519_dalek_ng::ristretto::CompressedRistretto,
) -> Seq<u8>;

/// The transcript that `merlin::Transcript::new` makes of a label.
pub uninterp spec fn transcript_seeded_with(label: Seq<u8>) -> merlin::Transcript;

/// The lengths that `bulletproofs::RangeProof::from_bytes` lets through: a
/// whole number of thirty-two-byte elements, nine of them and two more for
/// each of fewer than thirty-two rounds.
pub open spec fn parse_admits_length(len: nat) -> bool {
    &&& len % 32 == 0
    &&& len / 32 >= 9
    &&& (len / 32 - 9) % 2 == 0
    &&& (len / 32 - 9) / 2 < 32
}

/// The widest range, in bits, that a `bulletproofs::BulletproofGens` holds
/// generators for: its field `gens_capacity`.
pub uninterp spec fn generator_bits(gens: bulletproofs::BulletproofGens) -> usize;

/// The number of values per proof that a `bulletproofs::BulletproofGens`
/// holds generators for: its field `party_capacity`.
pub uninterp spec fn generator_parties(gens: bulletproofs::BulletproofGens) -> usize;

/// Whether `CompressedRistretto::decompress` finds a curve point behind the
/// thirty-two bytes `bytes`, that is, whether they are the canonical
/// encoding of a Ristretto point.
pub uninterp spec fn point_decompresses(bytes: Seq<u8>) -> bool;

/// `bulletproofs::RangeProof::from_bytes`: parses a serialized range proof.
/// It succeeds exactly when the length is one that `parse_admits_length`
/// lets through and the five scalars are canonical: the fifth, sixth and
/// seventh element and the last two. Points are kept as given, undecoded.
/// The proof that comes back writes out as the bytes it was parsed from.
#[verifier::external_body]
pub(crate) fn parse_range_proof(bytes: &[u8]) -> (parsed: Result<
    bulletproofs::RangeProof,
    bulletproofs::ProofError,
>)
    ensures
        parsed.is_ok() <==> (parse_admits_length(bytes@.len()) && scalar_canonical(
            element(bytes@, 4),
        ) && scalar_canonical(element(bytes@, 5)) && scalar_canonical(element(bytes@, 6))
            && scalar_canonical(element(bytes@, bytes@.len() / 32 - 2)) && scalar_canonical(
            element(bytes@, bytes@.len() / 32 - 1),
        )),
        parsed matches Ok(proof) ==> proof_encoding(proof) == bytes@,
{
    bulletproofs::RangeProof::from_bytes(bytes)
}

/// `CompressedRistretto::decompress`, on the compressed point that
/// `CompressedRistretto::from_slice` makes of `bytes`. The latter panics
/// unless it is handed thirty-two bytes, hence the precondition. A point
/// comes back exactly when `point_decompresses` holds of the bytes, and
/// since only canonical encodings decompress, the bytes are then the
/// point's own encoding.
#[verifier::external_body]
pub(crate) fn decompress_point(bytes: &[u8]) -> (point: Option<
    curve25519_dalek_ng::ristretto::RistrettoPoint,
>)
    requires
        bytes@.len() == 32,
    ensures
        point.is_some() == point_decompresses(bytes@),
        point matches Some(decoded) ==> point_encoding(decoded) == bytes@,
{
    curve25519_dalek_ng::ristretto::CompressedRistretto::from_slice(bytes).decompress()
}

/// `RistrettoPoint::compress`: the compressed form of a curve point, which
/// holds the point's encoding.
#[verifier::external_body]
pub(crate) fn compress_point(point: &curve25519_dalek_ng::ristretto::RistrettoPoint) -> (compressed:
    curve25519_dalek_ng::ristretto::CompressedRistretto)
    ensures
        compressed_encoding(compressed) == point_encoding(*point),
{
    point.compress()
}

/// `PedersenGens::default`: the standard pair of commitment generators.
#[verifier::external_body]
pub(crate) fn pedersen_generators() -> bulletproofs::PedersenGens {
    bulletproofs::PedersenGens::default()
}

/// `BulletproofGens::new`: generators for proofs of up to `gens_capacity`
/// bits, aggregated over up to `party_capacity` values. The two capacities
/// are recorded in the result as given. It allocates in proportion to their
/// product, so the precondition keeps both within what one unaggregated
/// proof over sixty-four bits needs.
#[verifier::external_body]
pub(crate) fn bulletproof_generators(gens_capacity: usize, party_capacity: usize) -> (gens:
    bulletproofs::BulletproofGens)
    requires
        gens_capacity <= 64,
        party_capacity <= 1,
    ensures
        generator_bits(gens) == gens_capacity,
        generator_parties(gens) == party_capacity,
{
    bulletproofs::BulletproofGens::new(gens_capacity, party_capacity)
}

/// The field `gens_capacity` of a `bulletproofs::BulletproofGens`.
#[verifier::external_body]
pub(crate) fn generator_bit_capacity(gens: &bulletproofs::BulletproofGens) -> (bits: usize)
    ensures
        bits == generator_bits(*gens),
{
    gens.gens_capacity
}

/// The field `party_capacity` of a `bulletproofs::BulletproofGens`.
#[verifier::external_body]
pub(crate) fn generator_party_capacity(gens: &bulletproofs::BulletproofGens) -> (parties: usize)
    ensures
        parties == generator_parties(*gens),
{
    gens.party_capacity
}

/// `merlin::Transcript::new`: a transcript that has absorbed `label` as its
/// domain separator and nothing else. The label's length is written into
/// the transcript as thirty-two bits, and a longer label makes the call
/// panic, hence the precondition.
#[verifier::external_body]
pub(crate) fn merlin_transcript(label: &'static [u8]) -> (transcript: merlin::Transcript)
    requires
        label@.len() <= u32::MAX,
    ensures
        transcript == transcript_seeded_with(label@),
{
    merlin::Transcript::new(label)
}

/// `bulletproofs::RangeProof::verify_single`: runs the range-proof
/// verification for one commitment and `bits` bits. It turns down, before
/// it looks at the proof, a width other than 8, 16, 32 or 64 and
/// generators that hold fewer than `bits` bits or no party; the
/// precondition keeps such calls out, and asks for generators made for
/// exactly the width that is verified. The verifier draws a random batching
/// scalar on each run, so nothing is claimed of the result; the transcript
/// is left in whatever state the run put it in.
#[verifier::external_body]
pub(crate) fn verify_single(
    proof: &bulletproofs::RangeProof,
    bulletproof_gens: &bulletproofs::BulletproofGens,
    pedersen_gens: &bulletproofs::PedersenGens,
    transcript: &mut merlin::Transcript,
    commitment: &curve25519_dalek_ng::ristretto::CompressedRistretto,
    bits: usize,
) -> Result<(), bulletproofs::ProofError>
    requires
        bits == 8 || bits == 16 || bits == 32 || bits == 64,
        generator_bits(*bulletproof_gens) == bits,
        generator_parties(*bulletproof_gens) >= 1,
{
    proof.verify_single(bulletproof_gens, pedersen_gens, transcript, commitment, bits)
}

} // verus!
