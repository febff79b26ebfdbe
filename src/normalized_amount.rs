use vstd::prelude::*;
use vstd::arithmetic::div_mod::{
    lemma_basic_div,
    lemma_div_by_multiple, lemma_fundamental_div_mod, lemma_mod_pos_bound};

use crate::error::NttError;

verus! {

/// The decimal precision that all chains of the bridge share.
pub const TRIMMED_DECIMALS: u8 = 8;

pub open spec fn pow10(k: nat) -> nat
    decreases k,
{
    if k == 0 {
        1
    } else {
        10 * pow10((k - 1) as nat)
    }
}

/// An amount at `TRIMMED_DECIMALS` decimals, taken from `amount` at `decimals`
/// decimals: digits beyond the shared precision are dropped (floor), a
/// coarser precision is scaled up exactly.
pub open spec fn normalize_spec(amount: nat, decimals: nat) -> nat {
    if decimals > TRIMMED_DECIMALS {
        amount / pow10((decimals - TRIMMED_DECIMALS) as nat)
    } else {
        amount * pow10((TRIMMED_DECIMALS - decimals) as nat)
    }
}

/// The inverse scaling: an amount at `TRIMMED_DECIMALS` decimals expressed at
/// `decimals` decimals.
pub open spec fn denormalize_spec(amount: nat, decimals: nat) -> nat {
    if decimals > TRIMMED_DECIMALS {
        amount * pow10((decimals - TRIMMED_DECIMALS) as nat)
    } else {
        amount / pow10((TRIMMED_DECIMALS - decimals) as nat)
    }
}

pub proof fn lemma_pow10_positive(k: nat)
    ensures
        pow10(k) >= 1,
    decreases k,
{
    if k > 0 {
        lemma_pow10_positive((k - 1) as nat);
    }
}

pub proof fn lemma_pow10_monotone(i: nat, j: nat)
    requires
        i <= j,
    ensures
        pow10(i) <= pow10(j),
    decreases j,
{
    if i < j {
        lemma_pow10_monotone(i, (j - 1) as nat);
        lemma_pow10_positive((j - 1) as nat);
    }
}

proof fn lemma_pow10_small(k: nat)
    requires
        k <= TRIMMED_DECIMALS,
    ensures
        pow10(k) <= 100_000_000,
{
    lemma_pow10_monotone(k, 8);
    reveal_with_fuel(pow10, 9);
}

/// `10^k` when it fits in a `u64`, `None` otherwise.
fn checked_pow10(k: u8) -> (r: Option<u64>)
    ensures
        match r {
            Some(p) => p == pow10(k as nat),
            None => pow10(k as nat) > u64::MAX,
        },
{
    let mut p: u64 = 1;
    let mut i: u8 = 0;
    while i < k
        invariant
            i <= k,
            p == pow10(i as nat),
        decreases k - i,
    {
        match p.checked_mul(10) {
            Some(q) => {
                p = q;
                i = i + 1;
            },
            None => {
                proof {
                    lemma_pow10_monotone((i + 1) as nat, k as nat);
                }
                return None;
            },
        }
    }
    Some(p)
}

/// An amount at the bridge's shared precision of `TRIMMED_DECIMALS` decimals.
#[derive(Clone, Copy, Debug, PartialEq, Eq, Structural)]
pub struct NormalizedAmount {
    pub amount: u64,
}

impl NormalizedAmount {
    /// Scales `amount`, given at `from_decimals` decimals, to the shared
    /// precision; fails with `AmountOverflow` exactly when the result does not
    /// fit in a `u64`.
    pub fn normalize(amount: u64, from_decimals: u8) -> (r: Result<NormalizedAmount, NttError>)
        ensures
            match r {
                Ok(n) => n.amount == normalize_spec(amount as nat, from_decimals as nat),
                Err(e) => e == NttError::AmountOverflow && normalize_spec(
                    amount as nat,
                    from_decimals as nat,
                ) > u64::MAX,
            },
    {
        if from_decimals > TRIMMED_DECIMALS {
            match checked_pow10(from_decimals - TRIMMED_DECIMALS) {
                Some(p) => {
                    proof {
                        lemma_pow10_positive((from_decimals - TRIMMED_DECIMALS) as nat);
                    }
                    Ok(NormalizedAmount { amount: amount / p })
                },
                None => {
                    // every u64 is below the divisor, so nothing is left
                    proof {
                        lemma_basic_div(
                            amount as int,
                            pow10((from_decimals - TRIMMED_DECIMALS) as nat) as int,
                        );
                    }
                    Ok(NormalizedAmount { amount: 0 })
                },
            }
        } else {
            proof {
                lemma_pow10_small((TRIMMED_DECIMALS - from_decimals) as nat);
            }
            match checked_pow10(TRIMMED_DECIMALS - from_decimals) {
                Some(p) => match amount.checked_mul(p) {
                    Some(v) => Ok(NormalizedAmount { amount: v }),
                    None => Err(NttError::AmountOverflow),
                },
                None => Err(NttError::AmountOverflow),
            }
        }
    }

    /// Scales the amount back to `to_decimals` decimals; fails with
    /// `AmountOverflow` exactly when the result does not fit in a `u64`.
    pub fn denormalize(&self, to_decimals: u8) -> (r: Result<u64, NttError>)
        ensures
            match r {
                Ok(v) => v == denormalize_spec(self.amount as nat, to_decimals as nat),
                Err(e) => e == NttError::AmountOverflow && denormalize_spec(
                    self.amount as nat,
                    to_decimals as nat,
                ) > u64::MAX,
            },
    {
        if to_decimals > TRIMMED_DECIMALS {
            if self.amount == 0 {
                return Ok(0);
            }
            match checked_pow10(to_decimals - TRIMMED_DECIMALS) {
                Some(p) => match self.amount.checked_mul(p) {
                    Some(v) => Ok(v),
                    None => Err(NttError::AmountOverflow),
                },
                None => {
                    proof {
                        let p = pow10((to_decimals - TRIMMED_DECIMALS) as nat);
                        let a = self.amount as nat;
                        assert(a * p >= p) by (nonlinear_arith)
                            requires
                                a >= 1,
                        ;
                    }
                    Err(NttError::AmountOverflow)
                },
            }
        } else {
            proof {
                lemma_pow10_small((TRIMMED_DECIMALS - to_decimals) as nat);
                lemma_pow10_positive((TRIMMED_DECIMALS - to_decimals) as nat);
            }
            match checked_pow10(TRIMMED_DECIMALS - to_decimals) {
                Some(p) => Ok(self.amount / p),
                None => Err(NttError::AmountOverflow),
            }
        }
    }
}

/// Normalizing and then denormalizing to the same precision gives back the
/// amount itself whenever that precision is at most the shared one.
pub proof fn lemma_round_trip_lossless(amount: nat, decimals: nat)
    requires
        decimals <= TRIMMED_DECIMALS,
    ensures
        denormalize_spec(normalize_spec(amount, decimals), decimals) == amount,
{
    let p = pow10((TRIMMED_DECIMALS - decimals) as nat);
    lemma_pow10_positive((TRIMMED_DECIMALS - decimals) as nat);
    lemma_div_by_multiple(amount as int, p as int);
}

/// For a precision finer than the shared one, the round trip never gives more
/// than the amount, and loses at most `10^(decimals - TRIMMED_DECIMALS) - 1`
/// units of dust.
pub proof fn lemma_round_trip_dust_bounded(amount: nat, decimals: nat)
    requires
        decimals > TRIMMED_DECIMALS,
    ensures
        denormalize_spec(normalize_spec(amount, decimals), decimals) <= amount,
        amount - denormalize_spec(normalize_spec(amount, decimals), decimals) <= pow10(
            (decimals - TRIMMED_DECIMALS) as nat,
        ) - 1,
{
    let p = pow10((decimals - TRIMMED_DECIMALS) as nat);
    lemma_pow10_positive((decimals - TRIMMED_DECIMALS) as nat);
    lemma_fundamental_div_mod(amount as int, p as int);
    lemma_mod_pos_bound(amount as int, p as int);
    assert((amount / p) * p == p * (amount / p)) by (nonlinear_arith);
}

} // verus!
