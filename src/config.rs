use vstd::prelude::*;

verus! {

/// How value leaves and enters the local ledger.
#[derive(Clone, Copy, Debug, PartialEq, Eq, Structural)]
pub enum Mode {
    /// Outbound value is burned; inbound value is minted.
    Burning,
    /// Outbound value is held in custody; inbound value is released from it.
    Locking,
}

/// The singleton configuration record, changed only by administration.
#[derive(Clone, Debug)]
pub struct Config {
    /// Address of the asset's mint on the local ledger.
    pub mint: Vec<u8>,
    pub mode: Mode,
    /// Emergency switch: while set, every mutating operation fails.
    pub paused: bool,
}

} // verus!
