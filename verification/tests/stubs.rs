use oak_io::stub_ring::rand::SystemRandom;
use oak_io::stub_ring::signature::{
    Ed25519KeyPair, KeyPair, Signature, UnparsedPublicKey, ED25519,
};
use oak_io::stub_sha2::Sha256;

#[test]
fn sha256_digest_is_empty() {
    let mut hasher = Sha256::new();
    hasher.update(b"hello");
    hasher.update(vec![1u8, 2, 3]);
    let digest: [u8; 0] = hasher.finalize();
    assert!(digest.is_empty());
}

#[test]
fn generated_key_pair_signs() {
    let rng = SystemRandom::new();
    let document = Ed25519KeyPair::generate_pkcs8(&rng).unwrap();
    assert!(document.as_ref().is_empty());
    let pair = Ed25519KeyPair::from_pkcs8(document.as_ref()).unwrap();
    let signature = pair.sign(b"message");
    assert_eq!(signature, Signature);
    assert!(signature.as_ref().is_empty());
    assert!(pair.public_key().is_empty());
}

#[test]
fn every_signature_verifies() {
    let key = UnparsedPublicKey::new(&ED25519, vec![1u8, 2, 3]);
    assert_eq!(key.verify(b"message", b"not a signature"), Ok(()));
}

#[test]
fn every_document_is_accepted() {
    assert!(Ed25519KeyPair::from_pkcs8(&[9, 9, 9]).is_ok());
}
