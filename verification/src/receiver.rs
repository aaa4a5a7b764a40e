use vstd::prelude::*;

use crate::codec::Decodable;
use crate::handle::ReadHandle;

verus! {

/// The receiving half of a channel over which values of type `T` arrive.
#[derive(Debug, PartialEq, Eq)]
pub struct Receiver<T: Decodable> {
    pub handle: ReadHandle,
    pub phantom: core::marker::PhantomData<T>,
}

impl<T: Decodable> Receiver<T> {
    /// The receiver that reads from `handle`.
    pub open spec fn for_handle(handle: ReadHandle) -> Self {
        Receiver { handle, phantom: core::marker::PhantomData }
    }

    /// Creates the receiver that reads from `handle`.
    pub fn new(handle: ReadHandle) -> (r: Self)
        ensures
            r == Self::for_handle(handle),
            r.handle == handle,
    {
        Receiver { handle, phantom: core::marker::PhantomData }
    }

    /// A receiver is the receiver of its handle: nothing else tells two receivers apart.
    pub proof fn lemma_determined_by_handle(r: Self)
        ensures
            r == Self::for_handle(r.handle),
            Self::for_handle(r.handle).handle == r.handle,
    {
    }
}

impl<T: Decodable> Clone for Receiver<T> {
    fn clone(&self) -> (r: Self)
        ensures
            r == *self,
    {
        Self::new(self.handle)
    }
}

impl<T: Decodable> From<ReadHandle> for Receiver<T> {
    fn from(handle: ReadHandle) -> (r: Self) {
        Self::new(handle)
    }
}

impl<T: Decodable> vstd::std_specs::convert::FromSpecImpl<ReadHandle> for Receiver<T> {
    open spec fn obeys_from_spec() -> bool {
        true
    }

    open spec fn from_spec(handle: ReadHandle) -> Self {
        Self::for_handle(handle)
    }
}

} // verus!
