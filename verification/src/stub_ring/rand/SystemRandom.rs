use vstd::prelude::*;

verus! {

/// A source of secure random bytes.
pub struct SecureRandom {}

/// Creates a source of secure random bytes.
pub fn new() -> (r: SecureRandom)
    ensures
        r == (SecureRandom {}),
{
    SecureRandom {}
}

} // verus!
