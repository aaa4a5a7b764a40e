//! Random numbers and signatures with the interface of the `ring` crate that compute
//! nothing: every key is accepted and every signature verifies.

pub mod rand;
pub mod signature;
