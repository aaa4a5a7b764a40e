//! A SHA-256 hasher with the interface of the `sha2` crate that computes nothing:
//! it accepts any input and finishes with an empty digest.

pub mod digest;

use vstd::prelude::*;

verus! {

/// A hasher that keeps no state.
pub struct Sha256 {}

impl Sha256 {
    /// Creates a hasher.
    pub fn new() -> (r: Self)
        ensures
            r == (Sha256 {}),
    {
        Sha256 {}
    }

    /// Takes more input, which changes nothing.
    pub fn update<T>(&mut self, _input: T)
        ensures
            *final(self) == *old(self),
    {
    }

    /// Finishes hashing with the empty digest.
    pub fn finalize(self) -> (r: [u8; 0])
        ensures
            r@ == Seq::<u8>::empty(),
    {
        let r: [u8; 0] = [];
        assert(r@ =~= Seq::<u8>::empty());
        r
    }
}

} // verus!
