//! The reward accrual engine: a pure function of stake amount, rate and
//! elapsed whole days.

use vstd::prelude::*;

verus! {

/// Seconds in one day.
pub const SECONDS_PER_DAY: u64 = 86400;

/// Whole days elapsed between the last settlement and now, truncated down.
pub open spec fn spec_elapsed_days(last_update: u64, now: u64) -> int
    recommends
        now >= last_update,
{
    (now - last_update) / (SECONDS_PER_DAY as int)
}

/// The interest owed for `elapsed_days` days on `principal` at `apy`
/// percent per year: `((principal * apy) / 100 / 365) * elapsed_days`,
/// with truncating integer division applied in exactly that order.
pub open spec fn spec_reward(principal: u64, apy: u8, elapsed_days: int) -> int {
    principal * apy / 100 / 365 * elapsed_days
}

/// What the accrual engine pays out: zero when the user never staked
/// (`last_update == 0`) or no whole day elapsed, the reward formula
/// otherwise.
pub open spec fn spec_accrued(principal: u64, apy: u8, last_update: u64, now: u64) -> int
    recommends
        now >= last_update,
{
    if last_update == 0 || spec_elapsed_days(last_update, now) == 0 {
        0
    } else {
        spec_reward(principal, apy, spec_elapsed_days(last_update, now))
    }
}

/// The two intermediate products of one accrual step stay within `u64`.
pub open spec fn accrual_fits(principal: u64, apy: u8, last_update: u64, now: u64) -> bool {
    &&& principal * apy <= u64::MAX
    &&& spec_accrued(principal, apy, last_update, now) <= u64::MAX
}

/// Run the accrual engine: return the reward owed and the elapsed whole
/// days.  Never mutates state; callers apply the result.
pub fn accrue(principal: u64, apy: u8, last_update: u64, now: u64) -> (r: (u64, u64))
    requires
        now >= last_update,
        accrual_fits(principal, apy, last_update, now),
    ensures
        r.0 == spec_accrued(principal, apy, last_update, now),
        r.1 == spec_elapsed_days(last_update, now),
{
    let elapsed_days = (now - last_update) / SECONDS_PER_DAY;
    if last_update == 0 || elapsed_days == 0 {
        (0, elapsed_days)
    } else {
        let per_year = principal * (apy as u64) / 100 / 365;
        (per_year * elapsed_days, elapsed_days)
    }
}

/// The accrued reward is never negative.
pub proof fn lemma_accrued_nonneg(principal: u64, apy: u8, last_update: u64, now: u64)
    requires
        now >= last_update,
    ensures
        spec_accrued(principal, apy, last_update, now) >= 0,
{
    if last_update != 0 && spec_elapsed_days(last_update, now) != 0 {
        let days = spec_elapsed_days(last_update, now);
        assert(days >= 0);
        let per_year = principal * apy / 100 / 365;
        assert(principal * apy >= 0) by (nonlinear_arith);
        assert(per_year >= 0);
        assert(per_year * days >= 0) by (nonlinear_arith)
            requires
                per_year >= 0,
                days >= 0,
        ;
    }
}

} // verus!
