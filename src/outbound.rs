use vstd::prelude::*;

use crate::chain_id::ChainId;
use crate::config::Config;
use crate::error::NttError;
use crate::normalized_amount::NormalizedAmount;
use crate::sequence::Sequence;

verus! {

/// A pending outbound transfer, keyed by its sequence number.
#[derive(Clone, Debug)]
pub struct OutboundTransferEntry {
    pub sequence: u64,
    pub amount: NormalizedAmount,
    pub recipient_chain: ChainId,
    pub recipient_address: Vec<u8>,
    /// Earliest time at which the entry may be relayed.
    pub release_timestamp: i64,
    pub released: bool,
}

/// Creates the pending entry of an outbound transfer under the next sequence
/// number; fails, changing nothing, once the counter is exhausted.
pub fn enqueue(
    seq: &mut Sequence,
    amount: NormalizedAmount,
    recipient_chain: ChainId,
    recipient_address: Vec<u8>,
    release_timestamp: i64,
) -> (r: Result<OutboundTransferEntry, NttError>)
    ensures
        match r {
            Ok(entry) => old(seq).sequence < u64::MAX && final(seq).sequence == old(seq).sequence
                + 1 && entry == (OutboundTransferEntry {
                sequence: old(seq).sequence,
                amount,
                recipient_chain,
                recipient_address,
                release_timestamp,
                released: false,
            }),
            Err(e) => old(seq).sequence == u64::MAX && e == NttError::SequenceExhausted
                && *final(seq) == *old(seq),
        },
{
    let sequence = match seq.next() {
        Ok(s) => s,
        Err(e) => return Err(e),
    };
    Ok(OutboundTransferEntry {
        sequence,
        amount,
        recipient_chain,
        recipient_address,
        release_timestamp,
        released: false,
    })
}

/// Why finalizing `entry` at `now` fails, if it does: the pause gate first,
/// then a second release, then a release before its time.
pub open spec fn finalize_outbound_error(
    config: Config,
    entry: OutboundTransferEntry,
    now: int,
) -> Option<NttError> {
    if config.paused {
        Some(NttError::Paused)
    } else if entry.released {
        Some(NttError::TransferAlreadyRedeemed)
    } else if now < entry.release_timestamp {
        Some(NttError::ReleaseTimestampNotReached)
    } else {
        None
    }
}

/// Marks an outbound entry as handed to the relay. It succeeds at most once
/// per entry, and only once its release time has come; on failure the entry
/// is left as it was.
pub fn finalize_outbound(config: &Config, entry: &mut OutboundTransferEntry, now: i64) -> (r:
    Result<(), NttError>)
    ensures
        match r {
            Ok(()) => finalize_outbound_error(*config, *old(entry), now as int) is None
                && *final(entry) == (OutboundTransferEntry { released: true, ..*old(entry) }),
            Err(e) => finalize_outbound_error(*config, *old(entry), now as int) == Some(e)
                && *final(entry) == *old(entry),
        },
{
    if config.paused {
        return Err(NttError::Paused);
    }
    if entry.released {
        return Err(NttError::TransferAlreadyRedeemed);
    }
    if now < entry.release_timestamp {
        return Err(NttError::ReleaseTimestampNotReached);
    }
    entry.released = true;
    Ok(())
}

} // verus!
