use vstd::prelude::*;

verus! {

/// Identifier of a chain taking part in the bridge.
#[derive(Clone, Copy, Debug, PartialEq, Eq, Structural)]
pub struct ChainId {
    pub id: u16,
}

} // verus!
