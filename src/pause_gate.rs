use vstd::prelude::*;

use crate::error::NttError;
use crate::outbound::{finalize_outbound_error, OutboundTransferEntry};
use crate::release_inbound::{release_inbound_error, ReleaseInbound};
use crate::transfer::{transfer_error, Transfer};

verus! {

/// While the configuration is paused, starting an outbound transfer,
/// finalizing an outbound entry and releasing an inbound transfer all fail
/// with `Paused`, whatever their other inputs. A failed operation changes no
/// record and asks nothing of the ledger.
pub proof fn lemma_pause_gate(
    outbound: Transfer,
    amount: u64,
    inbound: ReleaseInbound,
    entry: OutboundTransferEntry,
    now: int,
)
    requires
        outbound.config.paused,
        inbound.config.paused,
    ensures
        transfer_error(outbound, amount) == Some(NttError::Paused),
        finalize_outbound_error(outbound.config, entry, now) == Some(NttError::Paused),
        release_inbound_error(inbound) == Some(NttError::Paused),
{
}

} // verus!
