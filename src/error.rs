use vstd::prelude::*;

verus! {

/// Every way an operation of the bridge core can fail. An operation that
/// fails leaves every record it touches as it found it.
#[derive(Clone, Copy, Debug, PartialEq, Eq, Structural)]
pub enum NttError {
    /// Scaling an amount between decimal precisions does not fit in a `u64`.
    AmountOverflow,
    /// The inbound transfer (or outbound entry) was already released.
    TransferAlreadyRedeemed,
    /// The emergency pause switch is on.
    Paused,
    /// An outbound entry was finalized before its release time.
    ReleaseTimestampNotReached,
    /// The sequence counter has handed out its last value.
    SequenceExhausted,
}

} // verus!
