use vstd::prelude::*;

verus! {

/// The ways an operation of this library can fail.
#[derive(Clone, Copy, Debug, PartialEq, Eq, Structural)]
pub enum Error {
    /// The secure random source could not be set up, or kept yielding zero.
    RandomSource,
    /// A scalar is zero, or a byte string is not a canonical scalar encoding.
    InvalidKey,
    /// The public key is not the encoding of a group element.
    InvalidPublicKey,
    /// The message is not the encoding of a group element.
    InvalidMessage,
    /// The ciphertext's `gamma` is not the encoding of a group element.
    InvalidGamma,
    /// The ciphertext's `delta` is not the encoding of a group element.
    InvalidDelta,
    /// The ephemeral key derives the recipient's public key.
    DegenerateKey,
}

/// The description of each failure.
pub open spec fn description(e: Error) -> Seq<char> {
    match e {
        Error::RandomSource => "random source failure"@,
        Error::InvalidKey => "invalid key"@,
        Error::InvalidPublicKey => "invalid public key"@,
        Error::InvalidMessage => "invalid message"@,
        Error::InvalidGamma => "invalid gamma"@,
        Error::InvalidDelta => "invalid delta"@,
        Error::DegenerateKey => "same private keys"@,
    }
}

impl Error {
    /// A short description of the failure.
    pub fn message(&self) -> (r: &'static str)
        ensures
            r@ == description(*self),
    {
        match self {
            Error::RandomSource => "random source failure",
            Error::InvalidKey => "invalid key",
            Error::InvalidPublicKey => "invalid public key",
            Error::InvalidMessage => "invalid message",
            Error::InvalidGamma => "invalid gamma",
            Error::InvalidDelta => "invalid delta",
            Error::DegenerateKey => "same private keys",
        }
    }
}

} // verus!
