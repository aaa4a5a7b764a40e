//! Public keys, key pairs and signatures.

mod sealed;

use super::rand::SystemRandom::SecureRandom;
use core::fmt::Debug;
use vstd::prelude::*;

verus! {

/// A public key of which only the bytes are known.
pub struct UnparsedPublicKey<B> {
    bytes: B,
}

impl<B> UnparsedPublicKey<B> {
    /// The bytes of the key.
    pub closed spec fn key_bytes(&self) -> B {
        self.bytes
    }

    /// A key with these bytes, for the given algorithm.
    pub fn new<A: VerificationAlgorithm>(algorithm: &'static A, bytes: B) -> (r: Self)
        ensures
            r.key_bytes() == bytes,
    {
        Self { bytes }
    }

    /// Checks a signature of a message: every signature is accepted.
    pub fn verify(&self, message: &[u8], signature: &[u8]) -> (r: Result<(), Unspecified>)
        ensures
            r == Ok::<(), Unspecified>(()),
    {
        Ok(())
    }
}

/// An algorithm that verifies signatures.
pub trait VerificationAlgorithm: Debug + Sync + sealed::Sealed {}

/// The parameters of EdDSA signatures.
#[derive(Clone, Copy, Debug, PartialEq)]
pub struct EdDSAParameters;

/// The algorithm of Ed25519 signatures.
pub const ED25519: EdDSAParameters = EdDSAParameters;

impl sealed::Sealed for EdDSAParameters {}

impl VerificationAlgorithm for EdDSAParameters {}

/// A key pair for Ed25519 signatures.
#[derive(Clone, Copy, Debug, PartialEq)]
pub struct Ed25519KeyPair {}

/// A signature, with no bytes.
#[derive(Clone, Copy, Debug, PartialEq)]
pub struct Signature;

impl AsRef<[u8]> for Signature {
    fn as_ref(&self) -> (r: &[u8])
        ensures
            r@ == Seq::<u8>::empty(),
    {
        let r: &[u8] = &[];
        assert(r@ =~= Seq::<u8>::empty());
        r
    }
}

/// A key pair that signs messages.
pub trait KeyPair: Debug + Send + Sized + Sync {
    type PublicKey: Debug + Clone + Send + Sized + Sync;

    /// The public half of the pair.
    fn public_key(&self) -> &Self::PublicKey;

    /// Signs a message.
    fn sign(&self, msg: &[u8]) -> Signature;
}

impl KeyPair for Ed25519KeyPair {
    type PublicKey = [u8; 0];

    fn public_key(&self) -> (r: &Self::PublicKey)
        ensures
            r@ == Seq::<u8>::empty(),
    {
        let r: &[u8; 0] = &[];
        assert(r@ =~= Seq::<u8>::empty());
        r
    }

    fn sign(&self, msg: &[u8]) -> (r: Signature)
        ensures
            r == Signature,
    {
        Signature {}
    }
}

/// A serialised key document, with no bytes.
pub struct Document {}

impl AsRef<[u8]> for Document {
    fn as_ref(&self) -> (r: &[u8])
        ensures
            r@ == Seq::<u8>::empty(),
    {
        let r: &[u8] = &[];
        assert(r@ =~= Seq::<u8>::empty());
        r
    }
}

/// An error that says nothing more.
#[derive(Clone, Copy, Debug, PartialEq)]
pub struct Unspecified {}

/// The error of a key that was refused.
#[derive(Clone, Copy, Debug, PartialEq)]
pub struct KeyRejected {}

impl Ed25519KeyPair {
    /// Generates a key pair document: always succeeds.
    pub fn generate_pkcs8(rng: &SecureRandom) -> (r: Result<Document, Unspecified>)
        ensures
            r is Ok,
    {
        return Ok(Document {})
    }

    /// Reads a key pair from a document: every document is accepted.
    pub fn from_pkcs8(pkcs8: &[u8]) -> (r: Result<Self, KeyRejected>)
        ensures
            r == Ok::<Self, KeyRejected>(Ed25519KeyPair {}),
    {
        return Ok(Ed25519KeyPair {})
    }
}

} // verus!
