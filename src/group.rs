//! Group elements of Ristretto, as compressed 32-byte encodings.
//!
//! The group law, hashing to the group and point (de)compression are done by
//! `curve25519_dalek`. Each of its results is named by a spec function below;
//! the library's contracts are stated over those names. `compress` always
//! yields the canonical encoding of an element, which `decompress` accepts.
use vstd::prelude::*;
use curve25519_dalek::constants::RISTRETTO_BASEPOINT_TABLE;
use curve25519_dalek::ristretto::{CompressedRistretto, RistrettoPoint};
use curve25519_dalek::scalar::Scalar;
use rand_core::{CryptoRng, RngCore};

use crate::scalar::is_canonical;

verus! {

/// `b` is the canonical encoding of a group element (it decompresses).
pub uninterp spec fn is_point(b: Seq<u8>) -> bool;

/// The encoding of `s · B`, `B` the base point, for a canonical scalar `s`.
pub uninterp spec fn base_mul(s: Seq<u8>) -> Seq<u8>;

/// The encoding of `s · P`, for `P` encoded by `p`.
pub uninterp spec fn point_mul(p: Seq<u8>, s: Seq<u8>) -> Seq<u8>;

/// The encoding of `P + Q`.
pub uninterp spec fn point_add(p: Seq<u8>, q: Seq<u8>) -> Seq<u8>;

/// The encoding of `P - Q`.
pub uninterp spec fn point_sub(p: Seq<u8>, q: Seq<u8>) -> Seq<u8>;

/// The encoding of the group element that 64 uniform bytes map to.
pub uninterp spec fn from_uniform(wide: Seq<u8>) -> Seq<u8>;

/// Relies on `CompressedRistretto::decompress`: `Some` exactly for canonical
/// encodings of group elements.
#[verifier::external_body]
pub(crate) fn decompresses(b: &[u8; 32]) -> (r: bool)
    ensures
        r == is_point(b@),
{
    CompressedRistretto(*b).decompress().is_some()
}

/// Relies on `Mul<&RistrettoBasepointTable>` for `&Scalar`, then `compress`.
#[verifier::external_body]
pub(crate) fn mul_base(s: &[u8; 32]) -> (r: [u8; 32])
    requires
        is_canonical(s@),
    ensures
        r@ == base_mul(s@),
        is_point(r@),
{
    (&Scalar::from_bits(*s) * &RISTRETTO_BASEPOINT_TABLE).compress().to_bytes()
}

/// Relies on `Mul<Scalar>` for `RistrettoPoint`, between `decompress` and
/// `compress`.
#[verifier::external_body]
pub(crate) fn mul_point(p: &[u8; 32], s: &[u8; 32]) -> (r: [u8; 32])
    requires
        is_point(p@),
        is_canonical(s@),
    ensures
        r@ == point_mul(p@, s@),
        is_point(r@),
{
    let point = CompressedRistretto(*p).decompress().unwrap();
    (point * Scalar::from_bits(*s)).compress().to_bytes()
}

/// Relies on `Add` for `RistrettoPoint`, between `decompress` and `compress`.
#[verifier::external_body]
pub(crate) fn add_points(p: &[u8; 32], q: &[u8; 32]) -> (r: [u8; 32])
    requires
        is_point(p@),
        is_point(q@),
    ensures
        r@ == point_add(p@, q@),
        is_point(r@),
{
    let a = CompressedRistretto(*p).decompress().unwrap();
    let b = CompressedRistretto(*q).decompress().unwrap();
    (a + b).compress().to_bytes()
}

/// Relies on `Sub` for `RistrettoPoint`, between `decompress` and `compress`.
#[verifier::external_body]
pub(crate) fn sub_points(p: &[u8; 32], q: &[u8; 32]) -> (r: [u8; 32])
    requires
        is_point(p@),
        is_point(q@),
    ensures
        r@ == point_sub(p@, q@),
        is_point(r@),
{
    let a = CompressedRistretto(*p).decompress().unwrap();
    let b = CompressedRistretto(*q).decompress().unwrap();
    (a - b).compress().to_bytes()
}

/// Relies on `RistrettoPoint::from_uniform_bytes`, then `compress`.
#[verifier::external_body]
pub(crate) fn uniform_point(wide: &[u8; 64]) -> (r: [u8; 32])
    ensures
        r@ == from_uniform(wide@),
        is_point(r@),
{
    RistrettoPoint::from_uniform_bytes(wide).compress().to_bytes()
}

/// Relies on `RistrettoPoint::random`, then `compress`; of the element drawn
/// only that it is one is known.
#[verifier::external_body]
pub(crate) fn random_point<R: RngCore + CryptoRng>(rng: &mut R) -> (r: [u8; 32])
    ensures
        is_point(r@),
{
    RistrettoPoint::random(rng).compress().to_bytes()
}

} // verus!
