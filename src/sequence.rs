use vstd::prelude::*;

use crate::error::NttError;

verus! {

/// The singleton counter that gives each outbound transfer its key.
#[derive(Clone, Copy, Debug, PartialEq, Eq, Structural)]
pub struct Sequence {
    pub sequence: u64,
}

impl Sequence {
    /// The counter as created at initialization.
    pub fn new() -> (r: Sequence)
        ensures
            r.sequence == 0,
    {
        Sequence { sequence: 0 }
    }

    /// Hands out the current value and advances the counter by one; fails,
    /// leaving the counter alone, once every `u64` has been handed out.
    pub fn next(&mut self) -> (r: Result<u64, NttError>)
        ensures
            old(self).sequence < u64::MAX ==> r == Ok::<u64, NttError>(old(self).sequence)
                && final(self).sequence == old(self).sequence + 1,
            old(self).sequence == u64::MAX ==> r == Err::<u64, NttError>(
                NttError::SequenceExhausted,
            ) && *final(self) == *old(self),
    {
        if self.sequence == u64::MAX {
            return Err(NttError::SequenceExhausted);
        }
        let s = self.sequence;
        self.sequence = s + 1;
        Ok(s)
    }
}

proof fn lemma_counter_at(start: int, issued: Seq<int>, counters: Seq<int>, i: int)
    requires
        counters.len() == issued.len() + 1,
        counters[0] == start,
        forall|m: int|
            0 <= m < issued.len() ==> #[trigger] issued[m] == counters[m] && counters[m + 1]
                == counters[m] + 1,
        0 <= i < counters.len(),
    ensures
        counters[i] == start + i,
    decreases i,
{
    if i > 0 {
        lemma_counter_at(start, issued, counters, i - 1);
        assert(issued[i - 1] == counters[i - 1]);
    }
}

/// Serialized calls of `next` hand out consecutive values: if each call
/// returned the counter it found and left it one higher, the `n` results,
/// taken from a counter at `start`, are exactly `start, start + 1, ...,
/// start + n - 1`, and no two of them are equal.
pub proof fn lemma_sequence_unique(start: int, issued: Seq<int>, counters: Seq<int>)
    requires
        counters.len() == issued.len() + 1,
        counters[0] == start,
        forall|i: int|
            0 <= i < issued.len() ==> #[trigger] issued[i] == counters[i] && counters[i + 1]
                == counters[i] + 1,
    ensures
        forall|i: int| 0 <= i < issued.len() ==> #[trigger] issued[i] == start + i,
        forall|i: int, j: int|
            0 <= i < issued.len() && 0 <= j < issued.len() && i != j ==> issued[i]
                != issued[j],
{
    assert forall|i: int| 0 <= i < issued.len() implies #[trigger] issued[i] == start + i by {
        lemma_counter_at(start, issued, counters, i);
    }
}

} // verus!
