//! Scalars modulo the group order, as canonical little-endian bytes.
use vstd::prelude::*;
use curve25519_dalek::scalar::Scalar;
use rand_core::{CryptoRng, RngCore};
use subtle::ConstantTimeEq;

verus! {

/// The order `l = 2^252 + 27742317777372353535851937790883648493` of the group.
pub open spec fn group_order() -> nat {
    7237005577332262213973186563042994240857116359379907606001950938285454250989nat
}

/// The integer that a byte string encodes, least significant byte first.
pub open spec fn le_value(b: Seq<u8>) -> nat
    decreases b.len(),
{
    if b.len() == 0 {
        0
    } else {
        b[0] as nat + 256 * le_value(b.subrange(1, b.len() as int))
    }
}

/// The `n`-byte little-endian encoding of `v` (the low `n` bytes).
pub open spec fn le_bytes(v: nat, n: nat) -> Seq<u8>
    decreases n,
{
    if n == 0 {
        Seq::empty()
    } else {
        seq![(v % 256) as u8] + le_bytes(v / 256, (n - 1) as nat)
    }
}

/// `b` is the canonical encoding of a scalar: 32 bytes whose value is below `l`.
pub open spec fn is_canonical(b: Seq<u8>) -> bool {
    b.len() == 32 && le_value(b) < group_order()
}

/// `b` encodes the scalar zero.
pub open spec fn is_zero(b: Seq<u8>) -> bool {
    b == Seq::new(32, |i: int| 0u8)
}

/// The canonical encoding of `v mod l`.
pub open spec fn scalar_of(v: int) -> Seq<u8> {
    le_bytes((v % (group_order() as int)) as nat, 32)
}

/// Relies on `Scalar::from_canonical_bytes`: `Some` exactly when the value of
/// the bytes is below `l`, and then the scalar keeps those bytes.
#[verifier::external_body]
pub(crate) fn canonical_scalar(bytes: [u8; 32]) -> (r: Option<[u8; 32]>)
    ensures
        r.is_some() == is_canonical(bytes@),
        r.is_some() ==> r.unwrap() == bytes,
{
    Scalar::from_canonical_bytes(bytes).map(|s| s.to_bytes())
}

} // verus!

verus! {

/// Relies on `Scalar::from_bytes_mod_order_wide`: the 64 bytes, read as a
/// little-endian integer, reduced modulo `l`.
#[verifier::external_body]
pub(crate) fn reduce_wide(wide: &[u8; 64]) -> (r: [u8; 32])
    ensures
        r@ == scalar_of(le_value(wide@) as int),
{
    Scalar::from_bytes_mod_order_wide(wide).to_bytes()
}

/// Relies on `Scalar::random`: 64 bytes from `rng` reduced modulo `l`, so the
/// result is canonical, whatever the bytes were.
#[verifier::external_body]
pub(crate) fn random_scalar<R: RngCore + CryptoRng>(rng: &mut R) -> (r: [u8; 32])
    ensures
        is_canonical(r@),
{
    Scalar::random(rng).to_bytes()
}

/// Relies on `Sub` for `&Scalar`: the difference of the two values modulo `l`,
/// in canonical form.
#[verifier::external_body]
pub(crate) fn sub_scalars(a: &[u8; 32], b: &[u8; 32]) -> (r: [u8; 32])
    requires
        is_canonical(a@),
        is_canonical(b@),
    ensures
        r@ == scalar_of(le_value(a@) - le_value(b@)),
{
    (&Scalar::from_bits(*a) - &Scalar::from_bits(*b)).to_bytes()
}

/// Relies on `ConstantTimeEq` for `[u8]` from `subtle`: equal lengths and equal
/// bytes, compared in time independent of the contents.
#[verifier::external_body]
pub(crate) fn ct_eq_bytes(a: &[u8; 32], b: &[u8; 32]) -> (r: bool)
    ensures
        r == (a@ == b@),
{
    a[..].ct_eq(&b[..]).unwrap_u8() == 1u8
}

/// The encoding of `l - 1`, the largest scalar.
pub const ORDER_MINUS_ONE: [u8; 32] = [
    0xec, 0xd3, 0xf5, 0x5c, 0x1a, 0x63, 0x12, 0x58, 0xd6, 0x9c, 0xf7, 0xa2, 0xde, 0xf9, 0xde, 0x14,
    0x00, 0x00, 0x00, 0x00, 0x00, 0x00, 0x00, 0x00, 0x00, 0x00, 0x00, 0x00, 0x00, 0x00, 0x00, 0x10,
];

/// The bytes of `ORDER_MINUS_ONE` encode `l - 1`.
pub proof fn lemma_order_minus_one()
    ensures
        ORDER_MINUS_ONE@.len() == 32,
        le_value(ORDER_MINUS_ONE@) == group_order() - 1,
        is_canonical(ORDER_MINUS_ONE@),
{
    let b = ORDER_MINUS_ONE@;
    assert(b =~= seq![
        0xecu8, 0xd3, 0xf5, 0x5c, 0x1a, 0x63, 0x12, 0x58, 0xd6, 0x9c, 0xf7, 0xa2, 0xde, 0xf9, 0xde, 0x14,
        0x00, 0x00, 0x00, 0x00, 0x00, 0x00, 0x00, 0x00, 0x00, 0x00, 0x00, 0x00, 0x00, 0x00, 0x00, 0x10,
    ]);
    reveal_with_fuel(le_value, 33);
}

} // verus!

verus! {

/// `256^n`.
pub open spec fn pow256(n: nat) -> nat
    decreases n,
{
    if n == 0 {
        1
    } else {
        256 * pow256((n - 1) as nat)
    }
}

/// Encoding a value that fits in `n` bytes, then reading it back, gives the value.
pub proof fn lemma_le_bytes_value(v: nat, n: nat)
    requires
        v < pow256(n),
    ensures
        le_bytes(v, n).len() == n,
        le_value(le_bytes(v, n)) == v,
    decreases n,
{
    if n > 0 {
        let p = pow256((n - 1) as nat);
        assert(v / 256 < p) by (nonlinear_arith)
            requires
                v < 256 * p,
        ;
        lemma_le_bytes_value(v / 256, (n - 1) as nat);
        let b = le_bytes(v, n);
        assert(b.subrange(1, b.len() as int) =~= le_bytes(v / 256, (n - 1) as nat));
    }
}

/// The encoding of `v mod l` is canonical, and its value is `v mod l`.
pub proof fn lemma_scalar_of(v: int)
    ensures
        is_canonical(scalar_of(v)),
        le_value(scalar_of(v)) == v % (group_order() as int),
{
    let m = (v % (group_order() as int)) as nat;
    assert(group_order() < pow256(32)) by {
        reveal_with_fuel(pow256, 33);
    }
    lemma_le_bytes_value(m, 32);
}

} // verus!
