//! Laws of the staking pool, stated and proved over the same spec functions
//! the transitions' contracts use.

use vstd::prelude::*;

use crate::accrual::lemma_accrued_nonneg;
use crate::accrual::spec_accrued;
use crate::accrual::spec_elapsed_days;
use crate::state::PoolError;
use crate::state::UserData;
use crate::transitions::claim_checks;
use crate::transitions::claim_error;
use crate::transitions::settlement_fits;
use crate::transitions::stake_checks;
use crate::transitions::unstake_checks;
use crate::transitions::user_after_claim;
use crate::transitions::user_after_stake;
use crate::transitions::user_after_unstake;
use crate::transitions::withdrawal_of;
use crate::transitions::ClaimReward;
use crate::transitions::Stake;
use crate::transitions::UnStake;

verus! {

/// Once a stake stands (`last_update > 0`) and at least one whole day has
/// elapsed, the accrued reward is exactly
/// `((principal * apy) / 100 / 365) * elapsed_days`, with truncating
/// integer division applied left to right in that order.
pub proof fn law_accrual_formula(principal: u64, apy: u8, last_update: u64, now: u64)
    requires
        last_update > 0,
        now >= last_update,
        spec_elapsed_days(last_update, now) >= 1,
    ensures
        spec_accrued(principal, apy, last_update, now) == principal * apy / 100 / 365
            * spec_elapsed_days(last_update, now),
{
}

/// A record that never staked accrues nothing, whatever the clock says.
pub proof fn law_no_stake_no_reward(principal: u64, apy: u8, now: u64)
    ensures
        spec_accrued(principal, apy, 0, now) == 0,
{
}

/// Before a full day has elapsed, nothing accrues.
pub proof fn law_no_elapsed_day_no_reward(principal: u64, apy: u8, last_update: u64, now: u64)
    requires
        now >= last_update,
        spec_elapsed_days(last_update, now) == 0,
    ensures
        spec_accrued(principal, apy, last_update, now) == 0,
{
}

/// A stake followed, the same day, by an unstake of the same amount settles
/// zero reward at the unstake and returns the principal to its value before
/// the stake; the cumulative reward paid does not move at the unstake.
pub proof fn law_stake_then_unstake_same_day(u: UserData, apy: u8, amount: u64, now: u64)
    requires
        now >= u.last_update,
        u.principal + amount <= u64::MAX,
        u.reward_paid + spec_accrued(u.principal, apy, u.last_update, now) <= u64::MAX,
    ensures
        ({
            let staked = user_after_stake(u, apy, amount, now);
            &&& spec_accrued(staked.principal, apy, staked.last_update, now) == 0
            &&& user_after_unstake(staked, apy, amount, now).principal == u.principal
            &&& user_after_unstake(staked, apy, amount, now).reward_paid == staked.reward_paid
        }),
{
    let staked = user_after_stake(u, apy, amount, now);
    assert(staked.last_update == now);
    if now != 0 {
        assert(spec_elapsed_days(now, now) == 0);
    }
    assert(withdrawal_of(staked, amount) == amount);
}

/// An unstake requesting more than the principal withdraws exactly the
/// principal, never more, and empties the record.
pub proof fn law_unstake_clamps(u: UserData, apy: u8, amount: u64, now: u64)
    requires
        amount > u.principal,
        now >= u.last_update,
        u.reward_paid + spec_accrued(u.principal, apy, u.last_update, now) <= u64::MAX,
    ensures
        withdrawal_of(u, amount) == u.principal,
        user_after_unstake(u, apy, amount, now).principal == 0,
{
}

/// A withdrawal never exceeds the principal, whatever is requested.
pub proof fn law_withdrawal_bounded(u: UserData, amount: u64)
    ensures
        withdrawal_of(u, amount) <= u.principal,
        withdrawal_of(u, amount) <= amount,
{
}

/// A claim on a record that never staked is owed exactly `NoStakeAmount`,
/// once the account checks pass.
pub proof fn law_claim_without_stake(ctx: ClaimReward, u: UserData)
    requires
        claim_checks(ctx, u) is None,
        u.last_update == 0,
    ensures
        claim_error(ctx, u) == Some(PoolError::NoStakeAmount),
{
}

/// A claim before a full day has elapsed is owed exactly `NoRewardAmount`,
/// once the account checks pass.
pub proof fn law_claim_without_elapsed_day(ctx: ClaimReward, u: UserData)
    requires
        claim_checks(ctx, u) is None,
        u.last_update > 0,
        ctx.now >= u.last_update,
        spec_elapsed_days(u.last_update, ctx.now) == 0,
    ensures
        claim_error(ctx, u) == Some(PoolError::NoRewardAmount),
{
}

/// Across every transition, the cumulative reward paid never shrinks, and
/// the principal never shrinks except by the unstake's own clamped
/// withdrawal; a claim leaves the principal untouched.
pub proof fn law_records_monotonic(u: UserData, apy: u8, amount: u64, now: u64)
    requires
        now >= u.last_update,
        u.principal + amount <= u64::MAX,
        settlement_fits(u, apy, now),
    ensures
        user_after_stake(u, apy, amount, now).reward_paid >= u.reward_paid,
        user_after_stake(u, apy, amount, now).principal >= u.principal,
        user_after_unstake(u, apy, amount, now).reward_paid >= u.reward_paid,
        user_after_unstake(u, apy, amount, now).principal == u.principal - withdrawal_of(
            u,
            amount,
        ),
        user_after_claim(u, apy, now).reward_paid >= u.reward_paid,
        user_after_claim(u, apy, now).principal == u.principal,
{
    lemma_accrued_nonneg(u.principal, apy, u.last_update, now);
}

/// A transition handed a missing signer is owed `AuthorizationFailure`, and
/// one handed a record address that does not match its re-derivation is
/// owed `AddressMismatch`; its record then stands unchanged, as the
/// transitions' contracts state.
pub proof fn law_bad_authority_rejected(
    stake_ctx: Stake,
    unstake_ctx: UnStake,
    claim_ctx: ClaimReward,
    u: UserData,
)
    ensures
        !stake_ctx.owner.is_signer ==> stake_checks(stake_ctx, u) == Some(
            PoolError::AuthorizationFailure,
        ),
        !unstake_ctx.owner.is_signer ==> unstake_checks(unstake_ctx, u) == Some(
            PoolError::AuthorizationFailure,
        ),
        !claim_ctx.owner.is_signer ==> claim_error(claim_ctx, u) == Some(
            PoolError::AuthorizationFailure,
        ),
        stake_ctx.owner.is_signer && u.owner == stake_ctx.owner.key && stake_ctx.pool_address
            != stake_ctx.derived_pool_address ==> stake_checks(stake_ctx, u) == Some(
            PoolError::AddressMismatch,
        ),
        unstake_ctx.owner.is_signer && u.owner == unstake_ctx.owner.key && unstake_ctx.pool_address
            != unstake_ctx.derived_pool_address ==> unstake_checks(unstake_ctx, u) == Some(
            PoolError::AddressMismatch,
        ),
        claim_ctx.owner.is_signer && u.owner == claim_ctx.owner.key && claim_ctx.pool_address
            != claim_ctx.derived_pool_address ==> claim_error(claim_ctx, u) == Some(
            PoolError::AddressMismatch,
        ),
{
}

} // verus!
