use vstd::prelude::*;

use crate::normalized_amount::NormalizedAmount;

verus! {

pub open spec fn min(a: int, b: int) -> int {
    if a <= b {
        a
    } else {
        b
    }
}

/// The smallest whole number of seconds in which `rate` per second covers
/// `shortfall`.
pub open spec fn ceil_div(shortfall: int, rate: int) -> int {
    (shortfall + rate - 1) / rate
}

/// A refilling capacity that throttles how much value flows per unit of time,
/// in one direction for one asset. Amounts are at the shared precision.
#[derive(Clone, Copy, Debug, PartialEq, Eq, Structural)]
pub struct RateLimitState {
    /// Most that can be available at once.
    pub capacity: u64,
    /// What can pass now without delay, as of `last_refill_time`.
    pub available: u64,
    /// Time, in seconds, up to which `available` has been refilled.
    pub last_refill_time: i64,
    /// Units that come back per second.
    pub refill_rate: u64,
}

impl RateLimitState {
    pub open spec fn wf(&self) -> bool {
        self.available <= self.capacity
    }

    /// What is available at `now`, after refilling since the last refill.
    pub open spec fn refilled(&self, now: int) -> int {
        if now > self.last_refill_time {
            min(
                self.capacity as int,
                self.available + self.refill_rate * (now - self.last_refill_time),
            )
        } else {
            self.available as int
        }
    }

    /// When a request for `amount` at `now` becomes eligible: at once if the
    /// refilled capacity covers it, else when the shortfall has refilled; a
    /// time past `i64::MAX` (or a rate of zero) gives `i64::MAX`.
    pub open spec fn release_time(&self, now: int, amount: int) -> int {
        let avail = self.refilled(now);
        if amount <= avail {
            now
        } else if self.refill_rate == 0 {
            i64::MAX as int
        } else {
            min(i64::MAX as int, now + ceil_div(amount - avail, self.refill_rate as int))
        }
    }

    /// The state after a request for `amount` at `now`: refilled, then debited
    /// by the amount, or emptied when the amount is more than is available.
    pub open spec fn after_consume(&self, now: int, amount: int) -> RateLimitState {
        let avail = self.refilled(now);
        RateLimitState {
            available: if amount <= avail {
                (avail - amount) as u64
            } else {
                0
            },
            last_refill_time: if now > self.last_refill_time {
                now as i64
            } else {
                self.last_refill_time
            },
            ..*self
        }
    }

    /// A full limiter that starts refilling at `now`.
    pub fn new(capacity: u64, refill_rate: u64, now: i64) -> (r: RateLimitState)
        ensures
            r.wf(),
            r.capacity == capacity,
            r.available == capacity,
            r.refill_rate == refill_rate,
            r.last_refill_time == now,
    {
        RateLimitState { capacity, available: capacity, last_refill_time: now, refill_rate }
    }

    /// The capacity available at `now`, without changing the state.
    pub fn capacity_at(&self, now: i64) -> (r: u64)
        requires
            self.wf(),
        ensures
            r == self.refilled(now as int),
    {
        if now > self.last_refill_time {
            let elapsed: u128 = (now as i128 - self.last_refill_time as i128) as u128;
            let rate: u128 = self.refill_rate as u128;
            assert(rate * elapsed <= (u64::MAX as int) * 0x1_0000_0000_0000_0000) by (
            nonlinear_arith)
                requires
                    rate <= u64::MAX,
                    elapsed <= 0x1_0000_0000_0000_0000int,
            ;
            let total: u128 = self.available as u128 + rate * elapsed;
            if total < self.capacity as u128 {
                total as u64
            } else {
                self.capacity
            }
        } else {
            self.available
        }
    }

    /// Takes `amount` out of the limiter at `now` and returns when the request
    /// may go: `now` if the refilled capacity covers it, otherwise the first
    /// second at which the shortfall will have refilled, with the capacity
    /// emptied so that later requests see what is left. Never refuses.
    pub fn consume_or_delay(&mut self, now: i64, amount: NormalizedAmount) -> (r: i64)
        requires
            old(self).wf(),
        ensures
            final(self).wf(),
            r == old(self).release_time(now as int, amount.amount as int),
            *final(self) == old(self).after_consume(now as int, amount.amount as int),
    {
        let avail = self.capacity_at(now);
        if now > self.last_refill_time {
            self.last_refill_time = now;
        }
        if amount.amount <= avail {
            self.available = avail - amount.amount;
            now
        } else {
            self.available = 0;
            if self.refill_rate == 0 {
                return i64::MAX;
            }
            let shortfall: u128 = (amount.amount - avail) as u128;
            let rate: u128 = self.refill_rate as u128;
            let wait: u128 = (shortfall + rate - 1) / rate;
            proof {
                let (s, q): (int, int) = (shortfall as int, rate as int);
                assert((s + q - 1) / q <= s) by (nonlinear_arith)
                    requires
                        q >= 1,
                        s >= 1,
                ;
            }
            let t: i128 = now as i128 + wait as i128;
            if t > i64::MAX as i128 {
                i64::MAX
            } else {
                t as i64
            }
        }
    }
}

} // verus!
