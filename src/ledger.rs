use vstd::prelude::*;

verus! {

/// What the token ledger must do, in the same atomic step, for an operation
/// of the core to take effect. Amounts are in the ledger's native units.
#[derive(Clone, Debug)]
pub enum LedgerAction {
    /// Destroy `amount` from the sender's holding.
    Burn { amount: u64 },
    /// Move `amount` from the sender's holding into custody.
    Lock { amount: u64 },
    /// Create `amount` for `recipient`.
    Mint { amount: u64, recipient: Vec<u8> },
    /// Move `amount` out of custody to `recipient`.
    Unlock { amount: u64, recipient: Vec<u8> },
}

} // verus!
