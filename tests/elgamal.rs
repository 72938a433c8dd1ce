use curve25519_dalek::constants::{
    BASEPOINT_ORDER, RISTRETTO_BASEPOINT_COMPRESSED, RISTRETTO_BASEPOINT_TABLE,
};
use curve25519_dalek::ristretto::{CompressedRistretto, RistrettoPoint};
use curve25519_dalek::scalar::Scalar;
use elgamal_ristretto::cipher::{decrypt, encrypt, CypherText};
use elgamal_ristretto::error::Error;
use elgamal_ristretto::keys::{KeyPair, Message, PrivateKey, PublicKey};
use rand_os::OsRng;
use sha2::{Digest, Sha512};

fn small_scalar(v: u64) -> [u8; 32] {
    let mut b = [0u8; 32];
    b[..8].copy_from_slice(&v.to_le_bytes());
    b
}

fn hash_of(data: &[u8]) -> [u8; 64] {
    let mut out = [0u8; 64];
    out.copy_from_slice(Sha512::digest(data).as_slice());
    out
}

fn base_times(s: [u8; 32]) -> [u8; 32] {
    let scalar = Scalar::from_canonical_bytes(s).unwrap();
    (&scalar * &RISTRETTO_BASEPOINT_TABLE).compress().to_bytes()
}

const ORDER_BYTES: [u8; 32] = [
    0xed, 0xd3, 0xf5, 0x5c, 0x1a, 0x63, 0x12, 0x58, 0xd6, 0x9c, 0xf7, 0xa2, 0xde, 0xf9, 0xde, 0x14,
    0x00, 0x00, 0x00, 0x00, 0x00, 0x00, 0x00, 0x00, 0x00, 0x00, 0x00, 0x00, 0x00, 0x00, 0x00, 0x10,
];

#[test]
fn message_new_keeps_bytes() {
    let bytes = [7u8; 32];
    let m = Message::new(bytes);
    assert_eq!(m.to_point(), bytes);
    assert_eq!(Message::from_point(&bytes), m);
}

#[test]
fn message_from_hash_matches_hash_to_group() {
    let h = hash_of(b"message");
    let expected = RistrettoPoint::from_uniform_bytes(&h).compress().to_bytes();
    assert_eq!(Message::from_hash(h).to_point(), expected);
    assert_ne!(Message::from_hash(h).to_point(), [0u8; 32]);
}

#[test]
fn message_random_is_a_group_element() {
    let m = Message::random().unwrap();
    assert!(CompressedRistretto(m.to_point()).decompress().is_some());
    let mut rng = OsRng::new().unwrap();
    let m2 = Message::from_rng(&mut rng);
    assert!(CompressedRistretto(m2.to_point()).decompress().is_some());
}

#[test]
fn private_key_from_scalar_zero_fails() {
    assert_eq!(PrivateKey::from_scalar([0u8; 32]), Err(Error::InvalidKey));
    assert_eq!(KeyPair::from_scalar([0u8; 32]), Err(Error::InvalidKey));
}

#[test]
fn private_key_from_scalar_nonzero_keeps_value() {
    let k = PrivateKey::from_scalar(small_scalar(42)).unwrap();
    assert_eq!(k.to_scalar(), small_scalar(42));
    assert_eq!(k.to_bytes(), small_scalar(42));
}

#[test]
fn private_key_from_slice_rejects_order_and_above() {
    assert_eq!(PrivateKey::from_slice(ORDER_BYTES), Err(Error::InvalidKey));
    assert_eq!(PrivateKey::from_slice([0xffu8; 32]), Err(Error::InvalidKey));
    let mut high_bit = small_scalar(1);
    high_bit[31] = 0x80;
    assert_eq!(PrivateKey::from_slice(high_bit), Err(Error::InvalidKey));
    assert_eq!(KeyPair::from_slice(ORDER_BYTES), Err(Error::InvalidKey));
}

#[test]
fn private_key_from_slice_accepts_canonical() {
    let mut below = ORDER_BYTES;
    below[0] -= 1;
    assert_eq!(PrivateKey::from_slice(below).unwrap().to_bytes(), below);
}

#[test]
fn private_key_from_slice_rejects_zero() {
    assert_eq!(PrivateKey::from_slice([0u8; 32]), Err(Error::InvalidKey));
    assert_eq!(KeyPair::from_slice([0u8; 32]), Err(Error::InvalidKey));
    assert_eq!(PrivateKey::from_slice(small_scalar(1)).unwrap().to_bytes(), small_scalar(1));
}

#[test]
fn private_key_from_hash_reduces_modulo_order() {
    let h = hash_of(b"private");
    let expected = Scalar::from_bytes_mod_order_wide(&h).to_bytes();
    assert_eq!(PrivateKey::from_hash(h).to_bytes(), expected);
    let all_ones = [0xffu8; 64];
    assert_ne!(PrivateKey::from_hash(all_ones).to_bytes(), [0xffu8; 32]);
}

#[test]
fn private_key_random_is_nonzero() {
    let k = PrivateKey::new().unwrap();
    assert_ne!(k.to_bytes(), [0u8; 32]);
    let mut rng = OsRng::new().unwrap();
    let k2 = PrivateKey::from_rng(&mut rng).unwrap();
    assert_ne!(k2.to_bytes(), [0u8; 32]);
    assert!(Scalar::from_canonical_bytes(k2.to_bytes()).is_some());
}

#[test]
fn public_key_constructors() {
    let k = PrivateKey::from_scalar(small_scalar(3)).unwrap();
    let expected = base_times(small_scalar(3));
    assert_eq!(k.to_public().to_bytes(), expected);
    assert_eq!(PublicKey::new(k).to_point(), expected);
    assert_eq!(PublicKey::from_private(k).to_point(), expected);
    assert_eq!(PublicKey::from_point([9u8; 32]).to_bytes(), [9u8; 32]);
    assert_eq!(PublicKey::from_slice([9u8; 32]).to_point(), [9u8; 32]);
    let h = hash_of(b"public");
    let from_hash = RistrettoPoint::from_uniform_bytes(&h).compress().to_bytes();
    assert_eq!(PublicKey::from_hash(h).to_bytes(), from_hash);
}

#[test]
fn key_pair_public_is_base_times_private() {
    let a = KeyPair::from_scalar(small_scalar(5)).unwrap();
    assert_eq!(a.public_key.to_bytes(), base_times(a.private_key.to_bytes()));
    let b = KeyPair::from_slice(small_scalar(11)).unwrap();
    assert_eq!(b.public_key.to_bytes(), base_times(small_scalar(11)));
    let c = KeyPair::from_hash(hash_of(b"pair"));
    assert_eq!(c.public_key.to_bytes(), base_times(c.private_key.to_bytes()));
    let d = KeyPair::new().unwrap();
    assert_eq!(d.public_key.to_bytes(), base_times(d.private_key.to_bytes()));
    let mut rng = OsRng::new().unwrap();
    let e = KeyPair::from_rng(&mut rng).unwrap();
    assert_eq!(e.public_key.to_bytes(), base_times(e.private_key.to_bytes()));
}

#[test]
fn from_hash_is_deterministic() {
    let h1 = hash_of(b"seed");
    let h2 = hash_of(b"seed");
    let h3 = hash_of(b"other seed");
    assert_eq!(Message::from_hash(h1), Message::from_hash(h2));
    assert_eq!(PrivateKey::from_hash(h1), PrivateKey::from_hash(h2));
    assert_eq!(PublicKey::from_hash(h1), PublicKey::from_hash(h2));
    assert_eq!(KeyPair::from_hash(h1), KeyPair::from_hash(h2));
    assert_ne!(Message::from_hash(h1), Message::from_hash(h3));
    assert_ne!(PrivateKey::from_hash(h1), PrivateKey::from_hash(h3));
    assert_ne!(PublicKey::from_hash(h1), PublicKey::from_hash(h3));
    assert_ne!(KeyPair::from_hash(h1), KeyPair::from_hash(h3));
}

#[test]
fn encrypt_with_same_key_is_degenerate() {
    let k = PrivateKey::from_scalar(small_scalar(9)).unwrap();
    let pk = k.to_public();
    let valid = Message::new(RISTRETTO_BASEPOINT_COMPRESSED.to_bytes());
    let invalid = Message::new([0xffu8; 32]);
    assert_eq!(encrypt(valid, pk, k), Err(Error::DegenerateKey));
    assert_eq!(encrypt(invalid, pk, k), Err(Error::DegenerateKey));
}

#[test]
fn encrypt_rejects_invalid_inputs() {
    let sk = PrivateKey::from_scalar(small_scalar(9)).unwrap();
    let valid = Message::new(RISTRETTO_BASEPOINT_COMPRESSED.to_bytes());
    let bad_pk = PublicKey::from_slice([0xffu8; 32]);
    assert_eq!(encrypt(valid, bad_pk, sk), Err(Error::InvalidPublicKey));
    let pk = PrivateKey::from_scalar(small_scalar(4)).unwrap().to_public();
    let bad_msg = Message::new([0xffu8; 32]);
    assert_eq!(encrypt(bad_msg, pk, sk), Err(Error::InvalidMessage));
}

#[test]
fn decrypt_rejects_invalid_fields() {
    let sk = PrivateKey::from_scalar(small_scalar(9)).unwrap();
    let good = RISTRETTO_BASEPOINT_COMPRESSED.to_bytes();
    let bad = [0xffu8; 32];
    let c1 = CypherText { gamma: bad, delta: good };
    assert_eq!(decrypt(c1, sk), Err(Error::InvalidGamma));
    let c2 = CypherText { gamma: good, delta: bad };
    assert_eq!(decrypt(c2, sk), Err(Error::InvalidDelta));
    let c3 = CypherText { gamma: bad, delta: bad };
    assert_eq!(decrypt(c3, sk), Err(Error::InvalidGamma));
}

#[test]
fn encrypt_then_decrypt_follows_the_exact_formulas() {
    let s_a = small_scalar(1234567);
    let s_b = small_scalar(7654321);
    let a = KeyPair::from_scalar(s_a).unwrap();
    let b = KeyPair::from_scalar(s_b).unwrap();
    let m = Message::new(base_times(small_scalar(99)));
    let c = encrypt(m, a.public_key, b.private_key).unwrap();
    assert!(CompressedRistretto(c.gamma).decompress().is_some());
    assert!(CompressedRistretto(c.delta).decompress().is_some());

    let sa = Scalar::from_canonical_bytes(s_a).unwrap();
    let sb = Scalar::from_canonical_bytes(s_b).unwrap();
    assert_eq!(c.gamma, (&sb * &RISTRETTO_BASEPOINT_TABLE).compress().to_bytes());
    let pk_point = CompressedRistretto(a.public_key.to_bytes()).decompress().unwrap();
    let m_point = CompressedRistretto(m.to_point()).decompress().unwrap();
    assert_eq!(c.delta, (m_point + pk_point * sb).compress().to_bytes());

    let gamma = CompressedRistretto(c.gamma).decompress().unwrap();
    let delta = CompressedRistretto(c.delta).decompress().unwrap();
    let expected = delta - gamma * (BASEPOINT_ORDER - Scalar::one() - sa);
    let d = decrypt(c, a.private_key).unwrap();
    assert_eq!(d.to_point(), expected.compress().to_bytes());
}

#[test]
fn error_messages_are_distinct() {
    let all = [
        Error::RandomSource,
        Error::InvalidKey,
        Error::InvalidPublicKey,
        Error::InvalidMessage,
        Error::InvalidGamma,
        Error::InvalidDelta,
        Error::DegenerateKey,
    ];
    for (i, a) in all.iter().enumerate() {
        for b in all[i + 1..].iter() {
            assert_ne!(a.message(), b.message());
        }
    }
    assert_eq!(Error::DegenerateKey.message(), "same private keys");
}
