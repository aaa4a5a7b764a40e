use vstd::prelude::*;

verus! {

/// Marker for types that compute digests.
pub trait Digest {}

} // verus!
