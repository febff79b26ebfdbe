use vstd::prelude::*;

use crate::config::{Config, Mode};
use crate::error::NttError;
use crate::inbox::InboxItem;
use crate::ledger::LedgerAction;
use crate::normalized_amount::denormalize_spec;

verus! {

/// The records an inbound release reads and writes.
#[derive(Clone, Debug)]
pub struct ReleaseInbound {
    pub config: Config,
    pub inbox_item: InboxItem,
    /// Decimals of the asset on the local ledger.
    pub mint_decimals: u8,
}

/// A release takes no arguments beyond the records it touches.
#[derive(Clone, Copy, Debug)]
pub struct ReleaseInboundArgs {}

/// The native amount owed for the inbox item of `accs`.
pub open spec fn release_amount(accs: ReleaseInbound) -> nat {
    denormalize_spec(accs.inbox_item.amount.amount as nat, accs.mint_decimals as nat)
}

/// Why releasing the inbox item of `accs` fails, if it does: the pause gate
/// first, then a second release, then an amount that does not fit in the
/// ledger's native units.
pub open spec fn release_inbound_error(accs: ReleaseInbound) -> Option<NttError> {
    if accs.config.paused {
        Some(NttError::Paused)
    } else if accs.inbox_item.released {
        Some(NttError::TransferAlreadyRedeemed)
    } else if release_amount(accs) > u64::MAX {
        Some(NttError::AmountOverflow)
    } else {
        None
    }
}

/// The records of `accs` once its inbox item is released.
pub open spec fn released_state(accs: ReleaseInbound) -> ReleaseInbound {
    ReleaseInbound { inbox_item: InboxItem { released: true, ..accs.inbox_item }, ..accs }
}

/// Whether `action` creates `amount` for `recipient` under `mode`: minted
/// when burning, taken out of custody when locking.
pub open spec fn is_inbound_action(
    action: LedgerAction,
    mode: Mode,
    amount: nat,
    recipient: Seq<u8>,
) -> bool {
    match (mode, action) {
        (Mode::Burning, LedgerAction::Mint { amount: a, recipient: to }) => a == amount && to@
            == recipient,
        (Mode::Locking, LedgerAction::Unlock { amount: a, recipient: to }) => a == amount && to@
            == recipient,
        _ => false,
    }
}

/// Settles a verified inbound transfer. On success the inbox item is marked
/// released and the returned ledger action creates the denormalized amount
/// for the recorded recipient; both belong to one atomic step. On failure no
/// record changes and nothing is to be done on the ledger.
pub fn release_inbound(accs: &mut ReleaseInbound, _args: ReleaseInboundArgs) -> (r: Result<
    LedgerAction,
    NttError,
>)
    ensures
        match r {
            Ok(action) => release_inbound_error(*old(accs)) is None && *final(accs)
                == released_state(*old(accs)) && is_inbound_action(
                action,
                old(accs).config.mode,
                release_amount(*old(accs)),
                old(accs).inbox_item.recipient_address@,
            ),
            Err(e) => release_inbound_error(*old(accs)) == Some(e) && *final(accs) == *old(accs),
        },
{
    if accs.config.paused {
        return Err(NttError::Paused);
    }
    if accs.inbox_item.released {
        return Err(NttError::TransferAlreadyRedeemed);
    }
    let amount = match accs.inbox_item.amount.denormalize(accs.mint_decimals) {
        Ok(v) => v,
        Err(e) => return Err(e),
    };
    match accs.inbox_item.release() {
        Ok(()) => {},
        Err(e) => return Err(e),
    }
    let recipient = accs.inbox_item.recipient_address.clone();
    assert(recipient@ =~= accs.inbox_item.recipient_address@);
    match accs.config.mode {
        Mode::Burning => Ok(LedgerAction::Mint { amount, recipient }),
        Mode::Locking => Ok(LedgerAction::Unlock { amount, recipient }),
    }
}

/// Replay protection: once a release of an item has succeeded, any later
/// attempt on that item fails, with `TransferAlreadyRedeemed` when not paused.
/// Failed attempts change nothing, so the item stays released.
pub proof fn lemma_release_at_most_once(accs: ReleaseInbound, later: ReleaseInbound)
    requires
        release_inbound_error(accs) is None,
        later.inbox_item == released_state(accs).inbox_item,
    ensures
        released_state(accs).inbox_item.released,
        release_inbound_error(later) is Some,
        !later.config.paused ==> release_inbound_error(later) == Some(
            NttError::TransferAlreadyRedeemed,
        ),
{
}

} // verus!
