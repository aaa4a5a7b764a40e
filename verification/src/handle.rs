use vstd::prelude::*;

verus! {

/// Identifier of one half of a channel.
pub type Handle = u64;

/// A handle from which messages can be read.
#[derive(Clone, Copy, Debug, PartialEq, Eq, Structural)]
pub struct ReadHandle {
    pub handle: Handle,
}

impl From<Handle> for ReadHandle {
    fn from(handle: Handle) -> (r: ReadHandle) {
        ReadHandle { handle }
    }
}

impl vstd::std_specs::convert::FromSpecImpl<Handle> for ReadHandle {
    open spec fn obeys_from_spec() -> bool {
        true
    }

    open spec fn from_spec(handle: Handle) -> ReadHandle {
        ReadHandle { handle }
    }
}

} // verus!
