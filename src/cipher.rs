//! ElGamal encryption and decryption.
use vstd::prelude::*;

use crate::error::Error;
use crate::group::{
    add_points, base_mul, decompresses, is_point, mul_base, mul_point, point_add, point_mul,
    point_sub, sub_points,
};
use crate::keys::{Message, PrivateKey, PublicKey};
use crate::scalar::{
    ct_eq_bytes, group_order, le_value, lemma_order_minus_one, scalar_of, sub_scalars,
    ORDER_MINUS_ONE,
};

verus! {

/// An ElGamal ciphertext: two compressed group elements.
#[derive(Copy, Clone, Eq, PartialEq, Debug)]
pub struct CypherText {
    pub gamma: [u8; 32],
    pub delta: [u8; 32],
}

/// The scalar `(l - 1 - x) mod l` by which decryption multiplies `gamma`.
pub open spec fn unmask_exponent(x: Seq<u8>) -> Seq<u8> {
    scalar_of(group_order() - 1 - le_value(x))
}

/// Encrypts `msg` to the holder of `pk`, with `sk` as the ephemeral key:
/// `gamma = sk · B` and `delta = msg + sk · pk`.
pub fn encrypt(msg: Message, pk: PublicKey, sk: PrivateKey) -> (r: Result<CypherText, Error>)
    ensures
        base_mul(sk@) == pk@ ==> r == Err::<CypherText, Error>(Error::DegenerateKey),
        base_mul(sk@) != pk@ && !is_point(pk@) ==> r == Err::<CypherText, Error>(
            Error::InvalidPublicKey,
        ),
        base_mul(sk@) != pk@ && is_point(pk@) && !is_point(msg@) ==> r == Err::<
            CypherText,
            Error,
        >(Error::InvalidMessage),
        base_mul(sk@) != pk@ && is_point(pk@) && is_point(msg@) ==> (r matches Ok(c)
            && c.gamma@ == base_mul(sk@) && c.delta@ == point_add(msg@, point_mul(pk@, sk@))
            && is_point(c.gamma@) && is_point(c.delta@)),
{
    let pk_bytes = pk.to_point();
    let sk_bytes = sk.to_scalar();
    let derived = sk.to_public().to_point();
    if ct_eq_bytes(&derived, &pk_bytes) {
        return Err(Error::DegenerateKey);
    }
    if !decompresses(&pk_bytes) {
        return Err(Error::InvalidPublicKey);
    }
    let msg_bytes = msg.to_point();
    if !decompresses(&msg_bytes) {
        return Err(Error::InvalidMessage);
    }
    let shared = mul_point(&pk_bytes, &sk_bytes);
    let gamma = mul_base(&sk_bytes);
    let delta = add_points(&msg_bytes, &shared);
    Ok(CypherText { gamma, delta })
}

/// Decrypts `cyph` with the recipient's key `x`:
/// `delta - ((l - 1 - x) mod l) · gamma`, wrapped as a message without checks.
pub fn decrypt(cyph: CypherText, sk: PrivateKey) -> (r: Result<Message, Error>)
    ensures
        !is_point(cyph.gamma@) ==> r == Err::<Message, Error>(Error::InvalidGamma),
        is_point(cyph.gamma@) && !is_point(cyph.delta@) ==> r == Err::<Message, Error>(
            Error::InvalidDelta,
        ),
        is_point(cyph.gamma@) && is_point(cyph.delta@) ==> (r matches Ok(m) && m@ == point_sub(
            cyph.delta@,
            point_mul(cyph.gamma@, unmask_exponent(sk@)),
        )),
{
    if !decompresses(&cyph.gamma) {
        return Err(Error::InvalidGamma);
    }
    if !decompresses(&cyph.delta) {
        return Err(Error::InvalidDelta);
    }
    let sk_bytes = sk.to_scalar();
    proof {
        lemma_order_minus_one();
    }
    let exponent = sub_scalars(&ORDER_MINUS_ONE, &sk_bytes);
    proof {
        crate::scalar::lemma_scalar_of(le_value(ORDER_MINUS_ONE@) - le_value(sk_bytes@));
    }
    let inv_shared = mul_point(&cyph.gamma, &exponent);
    let msg_point = sub_points(&cyph.delta, &inv_shared);
    Ok(Message::from_point(&msg_point))
}

} // verus!
