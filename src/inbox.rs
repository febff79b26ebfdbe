use vstd::prelude::*;

use crate::error::NttError;
use crate::normalized_amount::NormalizedAmount;

verus! {

/// A verified inbound transfer, keyed by its source chain and sequence.
#[derive(Clone, Debug)]
pub struct InboxItem {
    pub amount: NormalizedAmount,
    pub recipient_address: Vec<u8>,
    pub released: bool,
}

impl InboxItem {
    /// Flips the item from pending to released; fails with
    /// `TransferAlreadyRedeemed`, changing nothing, if it was released before.
    pub fn release(&mut self) -> (r: Result<(), NttError>)
        ensures
            old(self).released ==> r == Err::<(), NttError>(NttError::TransferAlreadyRedeemed)
                && *final(self) == *old(self),
            !old(self).released ==> r is Ok && *final(self) == (InboxItem {
                released: true,
                ..*old(self)
            }),
    {
        if self.released {
            return Err(NttError::TransferAlreadyRedeemed);
        }
        self.released = true;
        Ok(())
    }
}

} // verus!
