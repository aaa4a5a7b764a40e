use vstd::prelude::*;

verus! {

/// Keeps the verification algorithms to those of this module.
pub trait Sealed {}

} // verus!
