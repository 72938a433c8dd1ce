//! ElGamal encryption over the Ristretto prime-order group.
//!
//! Scalars and group elements are held as their canonical 32-byte
//! encodings; the group arithmetic itself is done by `curve25519_dalek`.
pub mod cipher;
pub mod error;
pub mod group;
pub mod keys;
pub mod scalar;
