//! Verification of a BLS signature over BLS12-381: public keys in G1,
//! signatures in G2, messages mapped to G2 by hashing and rejection
//! sampling.

use crate::curve::{
    g1_decodes, g1_generator, g1_valid, g2_decodes, g2_valid, pairing, pairing_of, G1_GENERATOR,
    G1_LEN, G2_LEN,
};
use crate::encoding::{append_bytes, bytes_equal};
use crate::hash::{sha256, sha256_digest};
use vstd::prelude::*;

verus! {

/// The tag that separates this protocol's digests from any other's: the
/// ASCII text `SAFE-PUMP-V5`.
pub const DOMAIN_TAG: [u8; 12] = [
    0x53, 0x41, 0x46, 0x45, 0x2d, 0x50, 0x55, 0x4d, 0x50, 0x2d, 0x56, 0x35,
];

/// Number of counter values that the search for a hash point tries.
pub const MAX_ATTEMPTS: usize = 256;

/// The digest of a message under the domain tag.
pub open spec fn tagged_digest(msg: Seq<u8>) -> Seq<u8> {
    sha256(msg + DOMAIN_TAG@)
}

/// The candidate encoding that the search tries at `counter`.
pub open spec fn candidate(base: Seq<u8>, counter: int) -> Seq<u8> {
    sha256(base.push(counter as u8))
}

/// The first candidate at a counter from `start` up to 255 that decodes as
/// a point of G2, if there is one.
pub open spec fn first_point_from(base: Seq<u8>, start: int) -> Option<Seq<u8>>
    decreases MAX_ATTEMPTS - start,
{
    if start < 0 || start >= MAX_ATTEMPTS {
        None
    } else if g2_valid(candidate(base, start)) {
        Some(candidate(base, start))
    } else {
        first_point_from(base, start + 1)
    }
}

/// The encoding of the G2 point that stands for `msg`, if the search finds
/// one.
pub open spec fn hash_point(msg: Seq<u8>) -> Option<Seq<u8>> {
    first_point_from(tagged_digest(msg), 0)
}

/// Whether the signature `sig` matches the public key `pk` on the point
/// `point`: both are well-formed, and the pairing of the generator with
/// `sig` equals the pairing of `pk` with `point`.
pub open spec fn signature_matches(sig: Seq<u8>, pk: Seq<u8>, point: Seq<u8>) -> bool {
    &&& sig.len() == G2_LEN
    &&& pk.len() == G1_LEN
    &&& g2_valid(sig)
    &&& g1_valid(pk)
    &&& pairing_of(G1_GENERATOR@, sig) is Some
    &&& pairing_of(G1_GENERATOR@, sig) == pairing_of(pk, point)
}

/// Whether `sig` is accepted as the signature of `msg` under the public key
/// `pk`: `msg` has a hash point, and `sig` matches `pk` on it.
pub open spec fn bls_accepts(sig: Seq<u8>, pk: Seq<u8>, msg: Seq<u8>) -> bool {
    hash_point(msg) is Some && signature_matches(sig, pk, hash_point(msg).unwrap())
}

/// The search returns the candidate at the least counter that decodes, and
/// nothing exactly when none of the 256 candidates decodes.
pub proof fn lemma_first_point(base: Seq<u8>, start: int)
    requires
        0 <= start <= MAX_ATTEMPTS,
    ensures
        match first_point_from(base, start) {
            Some(h) => exists|i: int|
                start <= i < MAX_ATTEMPTS && h == #[trigger] candidate(base, i) && g2_valid(h)
                    && forall|j: int| start <= j < i ==> !g2_valid(#[trigger] candidate(base, j)),
            None => forall|i: int|
                start <= i < MAX_ATTEMPTS ==> !g2_valid(#[trigger] candidate(base, i)),
        },
    decreases MAX_ATTEMPTS - start,
{
    if start < MAX_ATTEMPTS && !g2_valid(candidate(base, start)) {
        lemma_first_point(base, start + 1);
        match first_point_from(base, start) {
            Some(h) => {
                let i = choose|i: int|
                    start + 1 <= i < MAX_ATTEMPTS && h == #[trigger] candidate(base, i)
                        && g2_valid(h) && forall|j: int|
                        start + 1 <= j < i ==> !g2_valid(#[trigger] candidate(base, j));
                assert(start <= i < MAX_ATTEMPTS && h == candidate(base, i) && g2_valid(h)
                    && forall|j: int| start <= j < i ==> !g2_valid(#[trigger] candidate(base, j)));
            },
            None => {},
        }
    } else if start < MAX_ATTEMPTS {
        let h = candidate(base, start);
        assert(start <= start < MAX_ATTEMPTS && h == candidate(base, start) && g2_valid(h)
            && forall|j: int| start <= j < start ==> !g2_valid(#[trigger] candidate(base, j)));
    }
}

/// The hash point of a message is the candidate at the least of the 256
/// counters whose candidate decodes, and there is none exactly when no
/// candidate decodes.
pub proof fn lemma_hash_point(msg: Seq<u8>)
    ensures
        match hash_point(msg) {
            Some(h) => exists|i: int|
                0 <= i < MAX_ATTEMPTS && h == #[trigger] candidate(tagged_digest(msg), i)
                    && g2_valid(h) && forall|j: int|
                    0 <= j < i ==> !g2_valid(#[trigger] candidate(tagged_digest(msg), j)),
            None => forall|i: int|
                0 <= i < MAX_ATTEMPTS ==> !g2_valid(#[trigger] candidate(tagged_digest(msg), i)),
        },
{
    lemma_first_point(tagged_digest(msg), 0);
}

/// A signature or a public key of the wrong length, or one that does not
/// decode as a point of its group, is never accepted.
pub proof fn lemma_malformed_input_rejected(sig: Seq<u8>, pk: Seq<u8>, msg: Seq<u8>)
    requires
        sig.len() != G2_LEN || pk.len() != G1_LEN || !g2_valid(sig) || !g1_valid(pk),
    ensures
        !bls_accepts(sig, pk, msg),
        forall|point: Seq<u8>| !signature_matches(sig, pk, point),
{
}

/// Computes the digest of `msg` followed by the domain tag.
pub fn domain_digest(msg: &[u8]) -> (out: [u8; 32])
    ensures
        out@ == tagged_digest(msg@),
{
    let mut input: Vec<u8> = Vec::new();
    append_bytes(&mut input, msg);
    append_bytes(&mut input, &DOMAIN_TAG);
    sha256_digest(input.as_slice())
}

/// Computes the candidate encoding at `counter`: the digest of `base`
/// followed by the counter's byte.
pub fn candidate_digest(base: &[u8; 32], counter: u8) -> (out: [u8; 32])
    ensures
        out@ == candidate(base@, counter as int),
{
    let mut input: Vec<u8> = Vec::new();
    append_bytes(&mut input, base);
    input.push(counter);
    sha256_digest(input.as_slice())
}

/// Maps `msg` to the encoding of a G2 point: the first of the 256
/// candidates that decodes. Returns `None` when none does.
pub fn hash_to_curve(msg: &[u8]) -> (point: Option<[u8; 32]>)
    ensures
        match point {
            Some(h) => hash_point(msg@) == Some(h@),
            None => hash_point(msg@) is None,
        },
{
    let base = domain_digest(msg);
    let mut counter: u8 = 0;
    loop
        invariant
            base@ == tagged_digest(msg@),
            first_point_from(base@, counter as int) == hash_point(msg@),
        decreases MAX_ATTEMPTS - counter,
    {
        let digest = candidate_digest(&base, counter);
        if g2_decodes(&digest) {
            return Some(digest);
        }
        if counter == 255 {
            assert(first_point_from(base@, counter + 1) is None);
            return None;
        }
        counter = counter + 1;
    }
}

/// Tells whether the pairing of the generator with `sig` equals the
/// pairing of `pk` with `point`. Where an argument does not decode, it
/// does not.
fn pairings_agree(sig: &[u8], pk: &[u8], point: &[u8]) -> (ok: bool)
    ensures
        ok == (pairing_of(G1_GENERATOR@, sig@) is Some && pairing_of(G1_GENERATOR@, sig@)
            == pairing_of(pk@, point@)),
{
    let generator = g1_generator();
    let left = match pairing(&generator, sig) {
        Some(value) => value,
        None => {
            return false;
        },
    };
    let right = match pairing(pk, point) {
        Some(value) => value,
        None => {
            return false;
        },
    };
    bytes_equal(left.as_slice(), right.as_slice())
}

/// Checks the signature `sig` against the public key `pk` on an encoded
/// point of G2. Input of the wrong length, or that does not decode, is
/// rejected, never a fault.
pub fn pairing_check(sig: &[u8], pk: &[u8], point: &[u8]) -> (ok: bool)
    ensures
        ok == signature_matches(sig@, pk@, point@),
{
    if sig.len() != G2_LEN || pk.len() != G1_LEN {
        return false;
    }
    if !g2_decodes(sig) {
        return false;
    }
    if !g1_decodes(pk) {
        return false;
    }
    pairings_agree(sig, pk, point)
}

/// Verifies the signature `sig_bytes` of `msg` under the public key
/// `pk_bytes`. Input that does not decode is rejected, never a fault, and
/// so is every signature of a message for which no hash point is found.
pub fn verify_bls_sig(sig_bytes: [u8; 96], pk_bytes: [u8; 48], msg: &[u8]) -> (ok: bool)
    ensures
        ok == bls_accepts(sig_bytes@, pk_bytes@, msg@),
        !g2_valid(sig_bytes@) || !g1_valid(pk_bytes@) ==> !ok,
{
    if !g2_decodes(&sig_bytes) {
        return false;
    }
    if !g1_decodes(&pk_bytes) {
        return false;
    }
    match hash_to_curve(msg) {
        Some(point) => pairings_agree(&sig_bytes, &pk_bytes, &point),
        None => false,
    }
}

} // verus!
