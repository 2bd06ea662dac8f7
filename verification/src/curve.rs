//! The BLS12-381 operations that signature verification needs, computed by
//! the arkworks crates. Points and pairing values cross this boundary in
//! their compressed encodings.

use ark_bls12_381::{Bls12_381, G1Affine, G2Affine};
use ark_ec::pairing::Pairing;
use ark_ec::AffineRepr;
use ark_serialize::{CanonicalDeserialize, CanonicalSerialize};
use vstd::prelude::*;

verus! {

/// Number of bytes in a compressed G1 point.
pub const G1_LEN: usize = 48;

/// Number of bytes in a compressed G2 point.
pub const G2_LEN: usize = 96;

/// The compressed encoding of the generator of G1.
pub const G1_GENERATOR: [u8; 48] = [
    0x97, 0xf1, 0xd3, 0xa7, 0x31, 0x97, 0xd7, 0x94, 0x26, 0x95, 0x63, 0x8c,
    0x4f, 0xa9, 0xac, 0x0f, 0xc3, 0x68, 0x8c, 0x4f, 0x97, 0x74, 0xb9, 0x05,
    0xa1, 0x4e, 0x3a, 0x3f, 0x17, 0x1b, 0xac, 0x58, 0x6c, 0x55, 0xe8, 0x3f,
    0xf9, 0x7a, 0x1a, 0xef, 0xfb, 0x3a, 0xf0, 0x0a, 0xdb, 0x22, 0xc6, 0xbb,
];

/// Whether `bytes` decodes as a compressed point of G1: a point on the
/// curve, in the prime-order subgroup.
pub uninterp spec fn g1_valid(bytes: Seq<u8>) -> bool;

/// Whether `bytes` decodes as a compressed point of G2: a point on the
/// twist, in the prime-order subgroup.
pub uninterp spec fn g2_valid(bytes: Seq<u8>) -> bool;

/// The compressed encoding of the pairing of the G1 point that `p` decodes
/// to with the G2 point that `q` decodes to; `None` where either fails to
/// decode.
pub uninterp spec fn pairing_of(p: Seq<u8>, q: Seq<u8>) -> Option<Seq<u8>>;

/// Calls `G1Affine::deserialize_compressed`, which reads 48 bytes, rebuilds
/// the point and checks its subgroup. Trusted: whether it succeeds depends
/// on `bytes` alone.
#[verifier::external_body]
pub(crate) fn g1_decodes(bytes: &[u8]) -> (ok: bool)
    ensures
        ok == g1_valid(bytes@),
{
    G1Affine::deserialize_compressed(bytes).is_ok()
}

/// Calls `G2Affine::deserialize_compressed`, which reads 96 bytes, rebuilds
/// the point and checks its subgroup. Trusted: whether it succeeds depends
/// on `bytes` alone.
#[verifier::external_body]
pub(crate) fn g2_decodes(bytes: &[u8]) -> (ok: bool)
    ensures
        ok == g2_valid(bytes@),
{
    G2Affine::deserialize_compressed(bytes).is_ok()
}

/// Calls `G1Affine::generator` and encodes the point with
/// `serialize_compressed`. Trusted: the encoding is `G1_GENERATOR`.
#[verifier::external_body]
pub(crate) fn g1_generator() -> (out: [u8; 48])
    ensures
        out@ == G1_GENERATOR@,
{
    let mut out = [0u8; 48];
    let _ = G1Affine::generator().serialize_compressed(&mut out[..]);
    out
}

/// Calls `Bls12_381::pairing` on the points that `p` and `q` decode to (by
/// `deserialize_compressed`) and encodes the value with
/// `serialize_compressed`. Trusted: the outcome depends on `p` and `q`
/// alone.
#[verifier::external_body]
pub(crate) fn pairing(p: &[u8], q: &[u8]) -> (out: Option<Vec<u8>>)
    ensures
        match out {
            Some(value) => pairing_of(p@, q@) == Some(value@),
            None => pairing_of(p@, q@) is None,
        },
{
    let p = G1Affine::deserialize_compressed(p).ok()?;
    let q = G2Affine::deserialize_compressed(q).ok()?;
    let mut out = Vec::new();
    Bls12_381::pairing(p, q).serialize_compressed(&mut out).ok()?;
    Some(out)
}

} // verus!
