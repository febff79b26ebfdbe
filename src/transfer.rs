use vstd::prelude::*;

use crate::chain_id::ChainId;
use crate::config::{Config, Mode};
use crate::error::NttError;
use crate::ledger::LedgerAction;
use crate::normalized_amount::{normalize_spec, NormalizedAmount};
use crate::outbound::{enqueue, OutboundTransferEntry};
use crate::rate_limit::RateLimitState;
use crate::sequence::Sequence;

verus! {

/// The records an outbound transfer reads and writes.
#[derive(Clone, Debug)]
pub struct Transfer {
    pub config: Config,
    /// Decimals of the asset on the local ledger.
    pub mint_decimals: u8,
    pub seq: Sequence,
    pub rate_limit: RateLimitState,
}

/// What the sender asks for: `amount` native units to `recipient_address`
/// on `recipient_chain`.
#[derive(Clone, Debug)]
pub struct TransferArgs {
    pub amount: u64,
    pub recipient_chain: ChainId,
    pub recipient_address: Vec<u8>,
}

/// Why an outbound transfer of `amount` fails, if it does: the pause gate
/// first, then an amount that does not fit at the shared precision, then an
/// exhausted sequence counter.
pub open spec fn transfer_error(accs: Transfer, amount: u64) -> Option<NttError> {
    if accs.config.paused {
        Some(NttError::Paused)
    } else if normalize_spec(amount as nat, accs.mint_decimals as nat) > u64::MAX {
        Some(NttError::AmountOverflow)
    } else if accs.seq.sequence == u64::MAX {
        Some(NttError::SequenceExhausted)
    } else {
        None
    }
}

/// The ledger action that takes `amount` away from the sender under `mode`.
pub open spec fn outbound_action(mode: Mode, amount: u64) -> LedgerAction {
    match mode {
        Mode::Burning => LedgerAction::Burn { amount },
        Mode::Locking => LedgerAction::Lock { amount },
    }
}

/// Starts an outbound transfer at time `now`. On success the amount is
/// normalized, charged to the rate limiter, given the next sequence number
/// and returned as a new pending entry that may be relayed from the time the
/// limiter gave; beside it comes the ledger action that removes the full raw
/// amount from the sender (burned, or held in custody). On failure no record
/// changes and nothing is to be done on the ledger.
pub fn transfer(accs: &mut Transfer, args: TransferArgs, now: i64) -> (r: Result<
    (OutboundTransferEntry, LedgerAction),
    NttError,
>)
    requires
        old(accs).rate_limit.wf(),
    ensures
        final(accs).rate_limit.wf(),
        match r {
            Ok((entry, action)) => {
                let n = normalize_spec(args.amount as nat, old(accs).mint_decimals as nat);
                &&& transfer_error(*old(accs), args.amount) is None
                &&& final(accs).config == old(accs).config
                &&& final(accs).mint_decimals == old(accs).mint_decimals
                &&& final(accs).seq.sequence == old(accs).seq.sequence + 1
                &&& final(accs).rate_limit == old(accs).rate_limit.after_consume(
                    now as int,
                    n as int,
                )
                &&& entry.sequence == old(accs).seq.sequence
                &&& entry.amount.amount == n
                &&& entry.recipient_chain == args.recipient_chain
                &&& entry.recipient_address == args.recipient_address
                &&& entry.release_timestamp == old(accs).rate_limit.release_time(
                    now as int,
                    n as int,
                )
                &&& !entry.released
                &&& action == outbound_action(old(accs).config.mode, args.amount)
            },
            Err(e) => transfer_error(*old(accs), args.amount) == Some(e) && *final(accs) == *old(
                accs,
            ),
        },
{
    if accs.config.paused {
        return Err(NttError::Paused);
    }
    let amount = match NormalizedAmount::normalize(args.amount, accs.mint_decimals) {
        Ok(n) => n,
        Err(e) => return Err(e),
    };
    if accs.seq.sequence == u64::MAX {
        return Err(NttError::SequenceExhausted);
    }
    let release_timestamp = accs.rate_limit.consume_or_delay(now, amount);
    let entry = match enqueue(
        &mut accs.seq,
        amount,
        args.recipient_chain,
        args.recipient_address,
        release_timestamp,
    ) {
        Ok(entry) => entry,
        Err(e) => return Err(e),
    };
    let action = match accs.config.mode {
        Mode::Burning => LedgerAction::Burn { amount: args.amount },
        Mode::Locking => LedgerAction::Lock { amount: args.amount },
    };
    Ok((entry, action))
}

} // verus!
