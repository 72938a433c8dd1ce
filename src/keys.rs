//! Messages, private keys, public keys and key pairs.
use vstd::prelude::*;
use rand_core::{CryptoRng, RngCore};
use rand_os::OsRng;

use crate::error::Error;
use crate::group::{
    base_mul, from_uniform, is_point, mul_base, random_point, uniform_point,
};
use crate::scalar::{
    canonical_scalar, ct_eq_bytes, is_canonical, is_zero, le_value, random_scalar, reduce_wide,
    scalar_of,
};

verus! {

#[verifier::external_type_specification]
#[verifier::external_body]
pub struct ExOsRng(OsRng);

/// Relies on `OsRng::new`: it may fail to reach the operating system's source.
#[verifier::external_body]
fn os_rng() -> (r: Option<OsRng>) {
    OsRng::new().ok()
}

/// An ElGamal message: the compressed encoding of a group element.
#[derive(Copy, Clone, Eq, PartialEq, Ord, PartialOrd, Debug)]
pub struct Message([u8; 32]);

impl View for Message {
    type V = Seq<u8>;

    closed spec fn view(&self) -> Seq<u8> {
        self.0@
    }
}

impl Message {
    /// Wraps the bytes as they are, with no validation.
    pub fn new(msg: [u8; 32]) -> (r: Message)
        ensures
            r@ == msg@,
    {
        Message(msg)
    }

    /// A random message, drawn with the operating system's random source.
    pub fn random() -> (r: Result<Message, Error>)
        ensures
            r matches Ok(m) ==> is_point(m@),
            r is Err ==> r == Err::<Message, Error>(Error::RandomSource),
    {
        match os_rng() {
            Some(mut rng) => Ok(Message::from_rng(&mut rng)),
            None => Err(Error::RandomSource),
        }
    }

    /// A random message, drawn with the given source.
    pub fn from_rng<R: RngCore + CryptoRng>(rng: &mut R) -> (r: Message)
        ensures
            is_point(r@),
    {
        Message(random_point(rng))
    }


    /// The message that a 64-byte hash output maps to (hash to the group).
    pub fn from_hash(hash: [u8; 64]) -> (r: Message)
        ensures
            r@ == from_uniform(hash@),
            is_point(r@),
    {
        Message(uniform_point(&hash))
    }

    /// The message with the given compressed encoding.
    pub fn from_point(point: &[u8; 32]) -> (r: Message)
        ensures
            r@ == point@,
    {
        Message(*point)
    }

    /// The compressed encoding of the message.
    pub fn to_point(&self) -> (r: [u8; 32])
        ensures
            r@ == self@,
    {
        self.0
    }
}

/// An ElGamal private key: a scalar below the group order, held canonically.
#[derive(Copy, Clone, Eq, PartialEq, Debug)]
pub struct PrivateKey([u8; 32]);

impl View for PrivateKey {
    type V = Seq<u8>;

    closed spec fn view(&self) -> Seq<u8> {
        self.0@
    }
}

impl PrivateKey {
    #[verifier::type_invariant]
    spec fn inv(&self) -> bool {
        is_canonical(self.0@)
    }

    /// A random nonzero private key, drawn with the operating system's source.
    pub fn new() -> (r: Result<PrivateKey, Error>)
        ensures
            r matches Ok(k) ==> is_canonical(k@) && !is_zero(k@),
            r is Err ==> r == Err::<PrivateKey, Error>(Error::RandomSource),
    {
        match os_rng() {
            Some(mut rng) => PrivateKey::from_rng(&mut rng),
            None => Err(Error::RandomSource),
        }
    }

    /// A random nonzero private key: scalars are drawn from `rng`, and the first
    /// one that `from_scalar` accepts (the first nonzero one) is the key. A
    /// source that yields zero more than `u64::MAX` times is taken as broken.
    pub fn from_rng<R: RngCore + CryptoRng>(rng: &mut R) -> (r: Result<PrivateKey, Error>)
        ensures
            r matches Ok(k) ==> is_canonical(k@) && !is_zero(k@),
            r is Err ==> r == Err::<PrivateKey, Error>(Error::RandomSource),
    {
        let mut tries: u64 = u64::MAX;
        loop
            decreases tries,
        {
            let scalar = random_scalar(rng);
            match PrivateKey::from_scalar(scalar) {
                Ok(k) => {
                    proof {
                        use_type_invariant(k);
                    }
                    return Ok(k);
                },
                Err(_) => {},
            }
            if tries == 0 {
                return Err(Error::RandomSource);
            }
            tries = tries - 1;
        }
    }


    /// The private key `v mod l`, `v` the little-endian value of a 64-byte
    /// hash output; it may be zero.
    pub fn from_hash(hash: [u8; 64]) -> (r: PrivateKey)
        ensures
            r@ == scalar_of(le_value(hash@) as int),
    {
        let bytes = reduce_wide(&hash);
        proof {
            crate::scalar::lemma_scalar_of(le_value(hash@) as int);
        }
        PrivateKey(bytes)
    }

    /// The private key holding a scalar, given by its canonical encoding;
    /// the scalar zero is refused.
    pub fn from_scalar(scalar: [u8; 32]) -> (r: Result<PrivateKey, Error>)
        requires
            is_canonical(scalar@),
        ensures
            is_zero(scalar@) ==> r == Err::<PrivateKey, Error>(Error::InvalidKey),
            !is_zero(scalar@) ==> (r matches Ok(k) && k@ == scalar@),
    {
        let zero: [u8; 32] = [0u8; 32];
        proof {
            assert(zero@ =~= Seq::new(32, |i: int| 0u8));
        }
        if ct_eq_bytes(&scalar, &zero) {
            return Err(Error::InvalidKey);
        }
        Ok(PrivateKey(scalar))
    }

    /// The canonical encoding of the scalar.
    pub fn to_scalar(&self) -> (r: [u8; 32])
        ensures
            r@ == self@,
            is_canonical(r@),
    {
        proof {
            use_type_invariant(self);
        }
        self.0
    }

    /// The private key with the given encoding, which must be the canonical
    /// encoding of a nonzero scalar.
    pub fn from_slice(buf: [u8; 32]) -> (r: Result<PrivateKey, Error>)
        ensures
            is_canonical(buf@) && !is_zero(buf@) ==> (r matches Ok(k) && k@ == buf@),
            !is_canonical(buf@) || is_zero(buf@) ==> r == Err::<PrivateKey, Error>(
                Error::InvalidKey,
            ),
    {
        match canonical_scalar(buf) {
            Some(bytes) => PrivateKey::from_scalar(bytes),
            None => Err(Error::InvalidKey),
        }
    }

    /// The canonical encoding of the scalar.
    pub fn to_bytes(&self) -> (r: [u8; 32])
        ensures
            r@ == self@,
            is_canonical(r@),
    {
        proof {
            use_type_invariant(self);
        }
        self.0
    }

    /// The public key `x · B`, `x` this key and `B` the base point.
    pub fn to_public(&self) -> (r: PublicKey)
        ensures
            r@ == base_mul(self@),
            is_point(r@),
    {
        proof {
            use_type_invariant(self);
        }
        PublicKey(mul_base(&self.0))
    }
}

/// An ElGamal public key: the compressed encoding of a group element.
#[derive(Copy, Clone, Eq, PartialEq, Debug)]
pub struct PublicKey([u8; 32]);

impl View for PublicKey {
    type V = Seq<u8>;

    closed spec fn view(&self) -> Seq<u8> {
        self.0@
    }
}

impl PublicKey {
    /// The public key of `private`.
    pub fn new(private: PrivateKey) -> (r: PublicKey)
        ensures
            r@ == base_mul(private@),
            is_point(r@),
    {
        PublicKey::from_private(private)
    }

    /// The public key of `private`.
    pub fn from_private(private: PrivateKey) -> (r: PublicKey)
        ensures
            r@ == base_mul(private@),
            is_point(r@),
    {
        private.to_public()
    }

    /// The public key with the given compressed encoding, unchecked.
    pub fn from_point(point: [u8; 32]) -> (r: PublicKey)
        ensures
            r@ == point@,
    {
        PublicKey(point)
    }

    /// The compressed encoding of the key.
    pub fn to_point(&self) -> (r: [u8; 32])
        ensures
            r@ == self@,
    {
        self.0
    }


    /// The public key that a 64-byte hash output maps to (hash to the group).
    pub fn from_hash(hash: [u8; 64]) -> (r: PublicKey)
        ensures
            r@ == from_uniform(hash@),
            is_point(r@),
    {
        PublicKey(uniform_point(&hash))
    }

    /// The public key with the given bytes, unchecked.
    pub fn from_slice(buf: [u8; 32]) -> (r: PublicKey)
        ensures
            r@ == buf@,
    {
        PublicKey(buf)
    }

    /// The compressed encoding of the key.
    pub fn to_bytes(&self) -> (r: [u8; 32])
        ensures
            r@ == self@,
    {
        self.0
    }
}

/// A private key together with the public key derived from it.
#[derive(Copy, Clone, Eq, PartialEq, Debug)]
pub struct KeyPair {
    pub public_key: PublicKey,
    pub private_key: PrivateKey,
}

impl KeyPair {
    /// The public key is `x · B`, `x` the private key, and so a group element.
    pub open spec fn is_derived(&self) -> bool {
        &&& self.public_key@ == base_mul(self.private_key@)
        &&& is_point(self.public_key@)
    }

    /// A random key pair, drawn with the operating system's source.
    pub fn new() -> (r: Result<KeyPair, Error>)
        ensures
            r matches Ok(k) ==> k.is_derived() && !is_zero(k.private_key@),
            r is Err ==> r == Err::<KeyPair, Error>(Error::RandomSource),
    {
        let private_key = PrivateKey::new()?;
        let public_key = private_key.to_public();
        Ok(KeyPair { public_key, private_key })
    }

    /// A random key pair, drawn with the given source.
    pub fn from_rng<R: RngCore + CryptoRng>(rng: &mut R) -> (r: Result<KeyPair, Error>)
        ensures
            r matches Ok(k) ==> k.is_derived() && !is_zero(k.private_key@),
            r is Err ==> r == Err::<KeyPair, Error>(Error::RandomSource),
    {
        let private_key = PrivateKey::from_rng(rng)?;
        let public_key = private_key.to_public();
        Ok(KeyPair { public_key, private_key })
    }

    /// The key pair whose private key is reduced from a 64-byte hash output.
    pub fn from_hash(hash: [u8; 64]) -> (r: KeyPair)
        ensures
            r.private_key@ == scalar_of(le_value(hash@) as int),
            r.is_derived(),
    {
        let private_key = PrivateKey::from_hash(hash);
        let public_key = private_key.to_public();
        KeyPair { public_key, private_key }
    }

    /// The key pair of a nonzero scalar, given by its canonical encoding.
    pub fn from_scalar(scalar: [u8; 32]) -> (r: Result<KeyPair, Error>)
        requires
            is_canonical(scalar@),
        ensures
            is_zero(scalar@) ==> r == Err::<KeyPair, Error>(Error::InvalidKey),
            !is_zero(scalar@) ==> (r matches Ok(k) && k.private_key@ == scalar@ && k.is_derived()),
    {
        let private_key = PrivateKey::from_scalar(scalar)?;
        let public_key = private_key.to_public();
        Ok(KeyPair { public_key, private_key })
    }

    /// The key pair of a scalar given by bytes, which must be the canonical
    /// encoding of a nonzero scalar.
    pub fn from_slice(buf: [u8; 32]) -> (r: Result<KeyPair, Error>)
        ensures
            is_canonical(buf@) && !is_zero(buf@) ==> (r matches Ok(k) && k.private_key@ == buf@
                && k.is_derived()),
            !is_canonical(buf@) || is_zero(buf@) ==> r == Err::<KeyPair, Error>(Error::InvalidKey),
    {
        let private_key = PrivateKey::from_slice(buf)?;
        let public_key = private_key.to_public();
        Ok(KeyPair { public_key, private_key })
    }
}

/// Deriving from a hash output is deterministic: equal outputs give the same
/// message, private key, public key and key pair.
pub proof fn lemma_from_hash_deterministic(h1: Seq<u8>, h2: Seq<u8>)
    requires
        h1.len() == 64,
        h1 == h2,
    ensures
        from_uniform(h1) == from_uniform(h2),
        scalar_of(le_value(h1) as int) == scalar_of(le_value(h2) as int),
        base_mul(scalar_of(le_value(h1) as int)) == base_mul(scalar_of(le_value(h2) as int)),
{
}

} // verus!
