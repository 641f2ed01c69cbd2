//! The six transitions of the staking pool.
//!
//! Each transition takes the accounts the caller supplied, as plain values
//! the host already read: the signer, the records, the supplied and
//! re-derived storage addresses, the mint and token-account fields, and the
//! clock.  It validates addressing and authority, runs the accrual engine,
//! and either returns the ledger requests to perform together with the
//! record update, or a fault code with every record left unchanged.
//!
//! Checks run in a fixed order, so exactly one fault code is owed to any
//! given context: signer presence, then record ownership, then address
//! derivations, then mints, then token accounts.

use vstd::prelude::*;

use crate::accrual::accrual_fits;
use crate::accrual::accrue;
use crate::accrual::spec_accrued;
use crate::accrual::spec_elapsed_days;
use crate::state::addr_eq;
use crate::state::Addr;
use crate::state::Authority;
use crate::state::LedgerRequest;
use crate::state::MintAccount;
use crate::state::Pool;
use crate::state::PoolError;
use crate::state::SignerInfo;
use crate::state::TokenAccount;
use crate::state::UserData;

verus! {

// ---------------------------------------------------------------------------
// Shared pieces of the contracts
// ---------------------------------------------------------------------------

/// A freshly registered stake record: all numeric fields zero.
pub open spec fn fresh_user(owner: Addr, bump: u8) -> UserData {
    UserData { owner, bump, principal: 0, last_update: 0, reward_paid: 0 }
}

/// Settling the accrued reward on `u` stays within `u64`: the accrual
/// engine's intermediates fit, and so does the new cumulative total.
pub open spec fn settlement_fits(u: UserData, apy: u8, now: u64) -> bool {
    &&& accrual_fits(u.principal, apy, u.last_update, now)
    &&& u.reward_paid + spec_accrued(u.principal, apy, u.last_update, now) <= u64::MAX
}

/// The user record after settling the reward accrued up to `now`.
pub open spec fn settled_user(u: UserData, apy: u8, now: u64) -> UserData {
    UserData {
        reward_paid: (u.reward_paid + spec_accrued(u.principal, apy, u.last_update, now)) as u64,
        last_update: now,
        ..u
    }
}

/// The user record after a stake of `amount`: reward settled, principal
/// grown by `amount`, settlement time moved to `now`.
pub open spec fn user_after_stake(u: UserData, apy: u8, amount: u64, now: u64) -> UserData {
    UserData {
        principal: (u.principal + amount) as u64,
        ..settled_user(u, apy, now)
    }
}

/// How much an unstake requesting `amount` actually withdraws: the request,
/// clamped to the available principal.
pub open spec fn withdrawal_of(u: UserData, amount: u64) -> u64 {
    if amount > u.principal {
        u.principal
    } else {
        amount
    }
}

/// The user record after an unstake of `amount`: reward settled, principal
/// shrunk by the clamped withdrawal, settlement time moved to `now`.
pub open spec fn user_after_unstake(u: UserData, apy: u8, amount: u64, now: u64) -> UserData {
    UserData {
        principal: (u.principal - withdrawal_of(u, amount)) as u64,
        ..settled_user(u, apy, now)
    }
}

/// The user record after a reward claim: reward settled, principal untouched.
pub open spec fn user_after_claim(u: UserData, apy: u8, now: u64) -> UserData {
    settled_user(u, apy, now)
}

// ---------------------------------------------------------------------------
// initialize
// ---------------------------------------------------------------------------

/// Accounts supplied to `initialize`.
#[derive(Clone, Copy, Debug, PartialEq, Eq)]
pub struct Initialize {
    /// The caller; becomes the pool's owner.
    pub owner: SignerInfo,
    /// Address at which the pool record is stored.
    pub pool_address: Addr,
    /// The addressing collaborator's derivation from (`seed`, `bump`).
    pub derived_pool_address: Addr,
    /// The owner-chosen random seed account.
    pub seed: Addr,
    /// The deposit token's mint account.
    pub base_mint: MintAccount,
    /// The receipt token's mint account.
    pub receipt_mint: MintAccount,
    /// The ledger's token program; genuine mints are owned by it.
    pub token_program: Addr,
}

/// The fault `initialize` owes to `ctx`, if any.
pub open spec fn initialize_checks(ctx: Initialize) -> Option<PoolError> {
    if !ctx.owner.is_signer {
        Some(PoolError::AuthorizationFailure)
    } else if ctx.pool_address != ctx.derived_pool_address {
        Some(PoolError::AddressMismatch)
    } else if ctx.base_mint.owner_program != ctx.token_program || ctx.receipt_mint.owner_program
        != ctx.token_program {
        Some(PoolError::MintMismatch)
    } else {
        None
    }
}

/// The pool record `initialize` writes on success.
pub open spec fn pool_after_initialize(ctx: Initialize, bump: u8, apy: u8) -> Pool {
    Pool {
        owner: ctx.owner.key,
        seed: ctx.seed,
        bump,
        base_mint: ctx.base_mint.address,
        receipt_mint: ctx.receipt_mint.address,
        apy,
    }
}

/// Create the pool record at the derived address.  A record already standing
/// there is overwritten in place: creation is create-if-needed.
pub fn initialize(ctx: &Initialize, pool: &mut Pool, bump: u8, apy: u8) -> (r: Result<
    (),
    PoolError,
>)
    ensures
        match initialize_checks(*ctx) {
            Some(e) => r == Err::<(), PoolError>(e) && *final(pool) == *old(pool),
            None => r == Ok::<(), PoolError>(()) && *final(pool) == pool_after_initialize(
                *ctx,
                bump,
                apy,
            ),
        },
{
    if !ctx.owner.is_signer {
        return Err(PoolError::AuthorizationFailure);
    }
    if !addr_eq(&ctx.pool_address, &ctx.derived_pool_address) {
        return Err(PoolError::AddressMismatch);
    }
    if !addr_eq(&ctx.base_mint.owner_program, &ctx.token_program) || !addr_eq(
        &ctx.receipt_mint.owner_program,
        &ctx.token_program,
    ) {
        return Err(PoolError::MintMismatch);
    }
    pool.owner = ctx.owner.key;
    pool.seed = ctx.seed;
    pool.bump = bump;
    pool.base_mint = ctx.base_mint.address;
    pool.receipt_mint = ctx.receipt_mint.address;
    pool.apy = apy;
    Ok(())
}

// ---------------------------------------------------------------------------
// update
// ---------------------------------------------------------------------------

/// Accounts supplied to `update`.
#[derive(Clone, Copy, Debug, PartialEq, Eq)]
pub struct Update {
    /// The caller; must be the pool's current owner.
    pub owner: SignerInfo,
    /// The address ownership of the pool passes to.
    pub new_owner: Addr,
    /// Address at which the pool record is stored.
    pub pool_address: Addr,
    /// The addressing collaborator's derivation from (`seed`, `bump`).
    pub derived_pool_address: Addr,
    /// The owner-chosen random seed account.
    pub seed: Addr,
    /// The deposit token's mint account.
    pub base_mint: MintAccount,
    /// The receipt token's mint account.
    pub receipt_mint: MintAccount,
    /// The ledger's token program.
    pub token_program: Addr,
}

/// The fault `update` owes to `ctx` against the stored pool, if any.
pub open spec fn update_checks(ctx: Update, p: Pool) -> Option<PoolError> {
    if !ctx.owner.is_signer {
        Some(PoolError::AuthorizationFailure)
    } else if p.owner != ctx.owner.key {
        Some(PoolError::AuthorizationFailure)
    } else if ctx.pool_address != ctx.derived_pool_address {
        Some(PoolError::AddressMismatch)
    } else if ctx.base_mint.owner_program != ctx.token_program || ctx.receipt_mint.owner_program
        != ctx.token_program {
        Some(PoolError::MintMismatch)
    } else {
        None
    }
}

/// The pool record `update` writes on success.
pub open spec fn pool_after_update(ctx: Update, bump: u8, apy: u8) -> Pool {
    Pool {
        owner: ctx.new_owner,
        seed: ctx.seed,
        bump,
        base_mint: ctx.base_mint.address,
        receipt_mint: ctx.receipt_mint.address,
        apy,
    }
}

/// Rewrite every field of the pool record, ownership included.  Only the
/// current owner may do so.
pub fn update(ctx: &Update, pool: &mut Pool, bump: u8, apy: u8) -> (r: Result<(), PoolError>)
    ensures
        match update_checks(*ctx, *old(pool)) {
            Some(e) => r == Err::<(), PoolError>(e) && *final(pool) == *old(pool),
            None => r == Ok::<(), PoolError>(()) && *final(pool) == pool_after_update(
                *ctx,
                bump,
                apy,
            ),
        },
{
    if !ctx.owner.is_signer {
        return Err(PoolError::AuthorizationFailure);
    }
    if !addr_eq(&pool.owner, &ctx.owner.key) {
        return Err(PoolError::AuthorizationFailure);
    }
    if !addr_eq(&ctx.pool_address, &ctx.derived_pool_address) {
        return Err(PoolError::AddressMismatch);
    }
    if !addr_eq(&ctx.base_mint.owner_program, &ctx.token_program) || !addr_eq(
        &ctx.receipt_mint.owner_program,
        &ctx.token_program,
    ) {
        return Err(PoolError::MintMismatch);
    }
    pool.owner = ctx.new_owner;
    pool.seed = ctx.seed;
    pool.bump = bump;
    pool.base_mint = ctx.base_mint.address;
    pool.receipt_mint = ctx.receipt_mint.address;
    pool.apy = apy;
    Ok(())
}

// ---------------------------------------------------------------------------
// init_user
// ---------------------------------------------------------------------------

/// Accounts supplied to `init_user`.
#[derive(Clone, Copy, Debug, PartialEq, Eq)]
pub struct InitUser {
    /// The caller; becomes the record's owner.
    pub owner: SignerInfo,
    /// Address at which the stake record will be stored.
    pub user_data_address: Addr,
    /// The addressing collaborator's derivation from (`owner.key`, `bump`).
    pub derived_user_address: Addr,
}

/// The fault `init_user` owes to `ctx`, if any.
pub open spec fn init_user_checks(ctx: InitUser) -> Option<PoolError> {
    if !ctx.owner.is_signer {
        Some(PoolError::AuthorizationFailure)
    } else if ctx.user_data_address != ctx.derived_user_address {
        Some(PoolError::AddressMismatch)
    } else {
        None
    }
}

/// Register the caller: produce their fresh stake record, all numeric
/// fields zero.  The host creates the storage and refuses an occupied
/// address; this transition never overwrites.
pub fn init_user(ctx: &InitUser, bump: u8) -> (r: Result<UserData, PoolError>)
    ensures
        match init_user_checks(*ctx) {
            Some(e) => r == Err::<UserData, PoolError>(e),
            None => r == Ok::<UserData, PoolError>(fresh_user(ctx.owner.key, bump)),
        },
{
    if !ctx.owner.is_signer {
        return Err(PoolError::AuthorizationFailure);
    }
    if !addr_eq(&ctx.user_data_address, &ctx.derived_user_address) {
        return Err(PoolError::AddressMismatch);
    }
    Ok(
        UserData {
            owner: ctx.owner.key,
            bump,
            principal: 0,
            last_update: 0,
            reward_paid: 0,
        },
    )
}

// ---------------------------------------------------------------------------
// stake
// ---------------------------------------------------------------------------

/// Accounts supplied to `stake`.
#[derive(Clone, Copy, Debug, PartialEq, Eq)]
pub struct Stake {
    /// The caller; must own the stake record.
    pub owner: SignerInfo,
    /// The pool's configuration record, as stored.
    pub pool: Pool,
    /// Address at which the pool record is stored.
    pub pool_address: Addr,
    /// The addressing collaborator's derivation from the pool's own
    /// (`seed`, `bump`).
    pub derived_pool_address: Addr,
    /// Address at which the caller's stake record is stored.
    pub user_data_address: Addr,
    /// The addressing collaborator's derivation from (`owner.key`, the
    /// record's `bump`).
    pub derived_user_address: Addr,
    /// The deposit token's mint account.
    pub base_mint: MintAccount,
    /// The receipt token's mint account.
    pub receipt_mint: MintAccount,
    /// The caller's deposit-token account.
    pub user_base_account: TokenAccount,
    /// The pool's custodial deposit-token account.
    pub pool_base_account: TokenAccount,
    /// The caller's receipt-token account.
    pub user_receipt_account: TokenAccount,
    /// The ledger's token program.
    pub token_program: Addr,
    /// The clock collaborator's current time, seconds.
    pub now: u64,
}

/// The fault `stake` owes to `ctx` against the stored stake record, if any.
pub open spec fn stake_checks(ctx: Stake, u: UserData) -> Option<PoolError> {
    if !ctx.owner.is_signer {
        Some(PoolError::AuthorizationFailure)
    } else if u.owner != ctx.owner.key {
        Some(PoolError::AuthorizationFailure)
    } else if ctx.pool_address != ctx.derived_pool_address {
        Some(PoolError::AddressMismatch)
    } else if ctx.user_data_address != ctx.derived_user_address {
        Some(PoolError::AddressMismatch)
    } else if ctx.base_mint.owner_program != ctx.token_program || ctx.base_mint.address
        != ctx.pool.base_mint {
        Some(PoolError::MintMismatch)
    } else if ctx.receipt_mint.owner_program != ctx.token_program || ctx.receipt_mint.address
        != ctx.pool.receipt_mint {
        Some(PoolError::MintMismatch)
    } else if ctx.user_base_account.owner != ctx.owner.key || ctx.user_base_account.mint
        != ctx.pool.base_mint {
        Some(PoolError::TokenAccountMismatch)
    } else if ctx.pool_base_account.owner != ctx.pool_address || ctx.pool_base_account.mint
        != ctx.pool.base_mint {
        Some(PoolError::TokenAccountMismatch)
    } else if ctx.user_receipt_account.owner != ctx.owner.key || ctx.user_receipt_account.mint
        != ctx.pool.receipt_mint {
        Some(PoolError::TokenAccountMismatch)
    } else {
        None
    }
}

/// The reward payout request of one settlement, owed only when the accrued
/// reward is positive: pool custody pays the caller, authorized by the
/// pool's delegated authority.
pub open spec fn reward_request(
    pool_custody: Addr,
    user_account: Addr,
    pool_address: Addr,
    reward: int,
) -> LedgerRequest {
    LedgerRequest::Transfer {
        from: pool_custody,
        to: user_account,
        amount: reward as u64,
        authority: Authority::PoolDelegate { pool: pool_address },
    }
}

/// The ledger requests `stake` issues, in order: the reward payout if one
/// is owed, the deposit transfer authorized by the caller, and the receipt
/// mint authorized by the pool's delegated authority.
pub open spec fn stake_requests(ctx: Stake, u: UserData, amount: u64) -> Seq<LedgerRequest> {
    let reward = spec_accrued(u.principal, ctx.pool.apy, u.last_update, ctx.now);
    let deposit = LedgerRequest::Transfer {
        from: ctx.user_base_account.address,
        to: ctx.pool_base_account.address,
        amount,
        authority: Authority::Caller { key: ctx.owner.key },
    };
    let mint = LedgerRequest::MintTo {
        mint: ctx.receipt_mint.address,
        to: ctx.user_receipt_account.address,
        amount,
        authority: Authority::PoolDelegate { pool: ctx.pool_address },
    };
    if reward > 0 {
        seq![
            reward_request(
                ctx.pool_base_account.address,
                ctx.user_base_account.address,
                ctx.pool_address,
                reward,
            ),
            deposit,
            mint,
        ]
    } else {
        seq![deposit, mint]
    }
}

/// Deposit `amount` into the pool: settle the accrued reward, move the
/// deposit into pool custody, grow the principal, and mint the receipt
/// token one-for-one.
pub fn stake(ctx: &Stake, user_data: &mut UserData, amount: u64) -> (r: Result<
    Vec<LedgerRequest>,
    PoolError,
>)
    requires
        1 <= amount,
        ctx.now >= old(user_data).last_update,
        stake_checks(*ctx, *old(user_data)) is None ==> settlement_fits(
            *old(user_data),
            ctx.pool.apy,
            ctx.now,
        ) && old(user_data).principal + amount <= u64::MAX,
    ensures
        match stake_checks(*ctx, *old(user_data)) {
            Some(e) => r == Err::<Vec<LedgerRequest>, PoolError>(e) && *final(user_data) == *old(
                user_data,
            ),
            None => {
                &&& r is Ok
                &&& (r matches Ok(reqs) ==> reqs@ == stake_requests(*ctx, *old(user_data), amount))
                &&& *final(user_data) == user_after_stake(
                    *old(user_data),
                    ctx.pool.apy,
                    amount,
                    ctx.now,
                )
            },
        },
{
    if !ctx.owner.is_signer {
        return Err(PoolError::AuthorizationFailure);
    }
    if !addr_eq(&user_data.owner, &ctx.owner.key) {
        return Err(PoolError::AuthorizationFailure);
    }
    if !addr_eq(&ctx.pool_address, &ctx.derived_pool_address) {
        return Err(PoolError::AddressMismatch);
    }
    if !addr_eq(&ctx.user_data_address, &ctx.derived_user_address) {
        return Err(PoolError::AddressMismatch);
    }
    if !addr_eq(&ctx.base_mint.owner_program, &ctx.token_program) || !addr_eq(
        &ctx.base_mint.address,
        &ctx.pool.base_mint,
    ) {
        return Err(PoolError::MintMismatch);
    }
    if !addr_eq(&ctx.receipt_mint.owner_program, &ctx.token_program) || !addr_eq(
        &ctx.receipt_mint.address,
        &ctx.pool.receipt_mint,
    ) {
        return Err(PoolError::MintMismatch);
    }
    if !addr_eq(&ctx.user_base_account.owner, &ctx.owner.key) || !addr_eq(
        &ctx.user_base_account.mint,
        &ctx.pool.base_mint,
    ) {
        return Err(PoolError::TokenAccountMismatch);
    }
    if !addr_eq(&ctx.pool_base_account.owner, &ctx.pool_address) || !addr_eq(
        &ctx.pool_base_account.mint,
        &ctx.pool.base_mint,
    ) {
        return Err(PoolError::TokenAccountMismatch);
    }
    if !addr_eq(&ctx.user_receipt_account.owner, &ctx.owner.key) || !addr_eq(
        &ctx.user_receipt_account.mint,
        &ctx.pool.receipt_mint,
    ) {
        return Err(PoolError::TokenAccountMismatch);
    }
    let (reward, _elapsed_days) = accrue(
        user_data.principal,
        ctx.pool.apy,
        user_data.last_update,
        ctx.now,
    );
    let mut requests: Vec<LedgerRequest> = Vec::new();
    if reward > 0 {
        requests.push(
            LedgerRequest::Transfer {
                from: ctx.pool_base_account.address,
                to: ctx.user_base_account.address,
                amount: reward,
                authority: Authority::PoolDelegate { pool: ctx.pool_address },
            },
        );
    }
    requests.push(
        LedgerRequest::Transfer {
            from: ctx.user_base_account.address,
            to: ctx.pool_base_account.address,
            amount,
            authority: Authority::Caller { key: ctx.owner.key },
        },
    );
    requests.push(
        LedgerRequest::MintTo {
            mint: ctx.receipt_mint.address,
            to: ctx.user_receipt_account.address,
            amount,
            authority: Authority::PoolDelegate { pool: ctx.pool_address },
        },
    );
    user_data.reward_paid = user_data.reward_paid + reward;
    user_data.principal = user_data.principal + amount;
    user_data.last_update = ctx.now;
    proof {
        assert(requests@ =~= stake_requests(*ctx, *old(user_data), amount));
    }
    Ok(requests)
}

// ---------------------------------------------------------------------------
// un_stake
// ---------------------------------------------------------------------------

/// Accounts supplied to `un_stake`; the same set as for `stake`.
#[derive(Clone, Copy, Debug, PartialEq, Eq)]
pub struct UnStake {
    /// The caller; must own the stake record.
    pub owner: SignerInfo,
    /// The pool's configuration record, as stored.
    pub pool: Pool,
    /// Address at which the pool record is stored.
    pub pool_address: Addr,
    /// The addressing collaborator's derivation from the pool's own
    /// (`seed`, `bump`).
    pub derived_pool_address: Addr,
    /// Address at which the caller's stake record is stored.
    pub user_data_address: Addr,
    /// The addressing collaborator's derivation from (`owner.key`, the
    /// record's `bump`).
    pub derived_user_address: Addr,
    /// The deposit token's mint account.
    pub base_mint: MintAccount,
    /// The receipt token's mint account.
    pub receipt_mint: MintAccount,
    /// The caller's deposit-token account.
    pub user_base_account: TokenAccount,
    /// The pool's custodial deposit-token account.
    pub pool_base_account: TokenAccount,
    /// The caller's receipt-token account.
    pub user_receipt_account: TokenAccount,
    /// The ledger's token program.
    pub token_program: Addr,
    /// The clock collaborator's current time, seconds.
    pub now: u64,
}

/// The fault `un_stake` owes to `ctx` against the stored stake record, if
/// any; the same checks, in the same order, as for `stake`.
pub open spec fn unstake_checks(ctx: UnStake, u: UserData) -> Option<PoolError> {
    if !ctx.owner.is_signer {
        Some(PoolError::AuthorizationFailure)
    } else if u.owner != ctx.owner.key {
        Some(PoolError::AuthorizationFailure)
    } else if ctx.pool_address != ctx.derived_pool_address {
        Some(PoolError::AddressMismatch)
    } else if ctx.user_data_address != ctx.derived_user_address {
        Some(PoolError::AddressMismatch)
    } else if ctx.base_mint.owner_program != ctx.token_program || ctx.base_mint.address
        != ctx.pool.base_mint {
        Some(PoolError::MintMismatch)
    } else if ctx.receipt_mint.owner_program != ctx.token_program || ctx.receipt_mint.address
        != ctx.pool.receipt_mint {
        Some(PoolError::MintMismatch)
    } else if ctx.user_base_account.owner != ctx.owner.key || ctx.user_base_account.mint
        != ctx.pool.base_mint {
        Some(PoolError::TokenAccountMismatch)
    } else if ctx.pool_base_account.owner != ctx.pool_address || ctx.pool_base_account.mint
        != ctx.pool.base_mint {
        Some(PoolError::TokenAccountMismatch)
    } else if ctx.user_receipt_account.owner != ctx.owner.key || ctx.user_receipt_account.mint
        != ctx.pool.receipt_mint {
        Some(PoolError::TokenAccountMismatch)
    } else {
        None
    }
}

/// The ledger requests `un_stake` issues, in order: the reward payout if
/// one is owed, the receipt burn authorized by the caller, and the
/// withdrawal paid out of pool custody by the pool's delegated authority.
pub open spec fn unstake_requests(ctx: UnStake, u: UserData, amount: u64) -> Seq<LedgerRequest> {
    let reward = spec_accrued(u.principal, ctx.pool.apy, u.last_update, ctx.now);
    let withdraw = withdrawal_of(u, amount);
    let burn = LedgerRequest::Burn {
        mint: ctx.receipt_mint.address,
        from: ctx.user_receipt_account.address,
        amount: withdraw,
        authority: Authority::Caller { key: ctx.owner.key },
    };
    let payout = LedgerRequest::Transfer {
        from: ctx.pool_base_account.address,
        to: ctx.user_base_account.address,
        amount: withdraw,
        authority: Authority::PoolDelegate { pool: ctx.pool_address },
    };
    if reward > 0 {
        seq![
            reward_request(
                ctx.pool_base_account.address,
                ctx.user_base_account.address,
                ctx.pool_address,
                reward,
            ),
            burn,
            payout,
        ]
    } else {
        seq![burn, payout]
    }
}

/// Withdraw from the pool: settle the accrued reward, clamp the request to
/// the available principal, burn that many receipt tokens and pay that much
/// back out of pool custody.  Requesting more than the principal withdraws
/// exactly the principal and is no fault.
pub fn un_stake(ctx: &UnStake, user_data: &mut UserData, amount: u64) -> (r: Result<
    Vec<LedgerRequest>,
    PoolError,
>)
    requires
        ctx.now >= old(user_data).last_update,
        unstake_checks(*ctx, *old(user_data)) is None ==> settlement_fits(
            *old(user_data),
            ctx.pool.apy,
            ctx.now,
        ),
    ensures
        match unstake_checks(*ctx, *old(user_data)) {
            Some(e) => r == Err::<Vec<LedgerRequest>, PoolError>(e) && *final(user_data) == *old(
                user_data,
            ),
            None => {
                &&& r is Ok
                &&& (r matches Ok(reqs) ==> reqs@ == unstake_requests(
                    *ctx,
                    *old(user_data),
                    amount,
                ))
                &&& *final(user_data) == user_after_unstake(
                    *old(user_data),
                    ctx.pool.apy,
                    amount,
                    ctx.now,
                )
            },
        },
{
    if !ctx.owner.is_signer {
        return Err(PoolError::AuthorizationFailure);
    }
    if !addr_eq(&user_data.owner, &ctx.owner.key) {
        return Err(PoolError::AuthorizationFailure);
    }
    if !addr_eq(&ctx.pool_address, &ctx.derived_pool_address) {
        return Err(PoolError::AddressMismatch);
    }
    if !addr_eq(&ctx.user_data_address, &ctx.derived_user_address) {
        return Err(PoolError::AddressMismatch);
    }
    if !addr_eq(&ctx.base_mint.owner_program, &ctx.token_program) || !addr_eq(
        &ctx.base_mint.address,
        &ctx.pool.base_mint,
    ) {
        return Err(PoolError::MintMismatch);
    }
    if !addr_eq(&ctx.receipt_mint.owner_program, &ctx.token_program) || !addr_eq(
        &ctx.receipt_mint.address,
        &ctx.pool.receipt_mint,
    ) {
        return Err(PoolError::MintMismatch);
    }
    if !addr_eq(&ctx.user_base_account.owner, &ctx.owner.key) || !addr_eq(
        &ctx.user_base_account.mint,
        &ctx.pool.base_mint,
    ) {
        return Err(PoolError::TokenAccountMismatch);
    }
    if !addr_eq(&ctx.pool_base_account.owner, &ctx.pool_address) || !addr_eq(
        &ctx.pool_base_account.mint,
        &ctx.pool.base_mint,
    ) {
        return Err(PoolError::TokenAccountMismatch);
    }
    if !addr_eq(&ctx.user_receipt_account.owner, &ctx.owner.key) || !addr_eq(
        &ctx.user_receipt_account.mint,
        &ctx.pool.receipt_mint,
    ) {
        return Err(PoolError::TokenAccountMismatch);
    }
    let (reward, _elapsed_days) = accrue(
        user_data.principal,
        ctx.pool.apy,
        user_data.last_update,
        ctx.now,
    );
    let withdraw = if user_data.principal < amount {
        user_data.principal
    } else {
        amount
    };
    let mut requests: Vec<LedgerRequest> = Vec::new();
    if reward > 0 {
        requests.push(
            LedgerRequest::Transfer {
                from: ctx.pool_base_account.address,
                to: ctx.user_base_account.address,
                amount: reward,
                authority: Authority::PoolDelegate { pool: ctx.pool_address },
            },
        );
    }
    requests.push(
        LedgerRequest::Burn {
            mint: ctx.receipt_mint.address,
            from: ctx.user_receipt_account.address,
            amount: withdraw,
            authority: Authority::Caller { key: ctx.owner.key },
        },
    );
    requests.push(
        LedgerRequest::Transfer {
            from: ctx.pool_base_account.address,
            to: ctx.user_base_account.address,
            amount: withdraw,
            authority: Authority::PoolDelegate { pool: ctx.pool_address },
        },
    );
    user_data.reward_paid = user_data.reward_paid + reward;
    user_data.principal = user_data.principal - withdraw;
    user_data.last_update = ctx.now;
    proof {
        assert(requests@ =~= unstake_requests(*ctx, *old(user_data), amount));
    }
    Ok(requests)
}

// ---------------------------------------------------------------------------
// claim_reward
// ---------------------------------------------------------------------------

/// Accounts supplied to `claim_reward`.
#[derive(Clone, Copy, Debug, PartialEq, Eq)]
pub struct ClaimReward {
    /// The caller; must own the stake record.
    pub owner: SignerInfo,
    /// The pool's configuration record, as stored.
    pub pool: Pool,
    /// Address at which the pool record is stored.
    pub pool_address: Addr,
    /// The addressing collaborator's derivation from the pool's own
    /// (`seed`, `bump`).
    pub derived_pool_address: Addr,
    /// Address at which the caller's stake record is stored.
    pub user_data_address: Addr,
    /// The addressing collaborator's derivation from (`owner.key`, the
    /// record's `bump`).
    pub derived_user_address: Addr,
    /// The deposit token's mint account.
    pub base_mint: MintAccount,
    /// The caller's deposit-token account.
    pub user_base_account: TokenAccount,
    /// The pool's custodial deposit-token account.
    pub pool_base_account: TokenAccount,
    /// The ledger's token program.
    pub token_program: Addr,
    /// The clock collaborator's current time, seconds.
    pub now: u64,
}

/// The addressing, authority and account faults `claim_reward` owes to
/// `ctx` against the stored stake record, if any.
pub open spec fn claim_checks(ctx: ClaimReward, u: UserData) -> Option<PoolError> {
    if !ctx.owner.is_signer {
        Some(PoolError::AuthorizationFailure)
    } else if u.owner != ctx.owner.key {
        Some(PoolError::AuthorizationFailure)
    } else if ctx.pool_address != ctx.derived_pool_address {
        Some(PoolError::AddressMismatch)
    } else if ctx.user_data_address != ctx.derived_user_address {
        Some(PoolError::AddressMismatch)
    } else if ctx.base_mint.owner_program != ctx.token_program || ctx.base_mint.address
        != ctx.pool.base_mint {
        Some(PoolError::MintMismatch)
    } else if ctx.user_base_account.owner != ctx.owner.key || ctx.user_base_account.mint
        != ctx.pool.base_mint {
        Some(PoolError::TokenAccountMismatch)
    } else if ctx.pool_base_account.owner != ctx.pool_address || ctx.pool_base_account.mint
        != ctx.pool.base_mint {
        Some(PoolError::TokenAccountMismatch)
    } else {
        None
    }
}

/// The fault `claim_reward` owes to `ctx`, if any: the account checks, then
/// `NoStakeAmount` for a record that never staked, then `NoRewardAmount`
/// before a full day has elapsed.
pub open spec fn claim_error(ctx: ClaimReward, u: UserData) -> Option<PoolError> {
    if claim_checks(ctx, u) is Some {
        claim_checks(ctx, u)
    } else if u.last_update == 0 {
        Some(PoolError::NoStakeAmount)
    } else if spec_elapsed_days(u.last_update, ctx.now) == 0 {
        Some(PoolError::NoRewardAmount)
    } else {
        None
    }
}

/// The single ledger request `claim_reward` issues: the reward paid out of
/// pool custody by the pool's delegated authority.
pub open spec fn claim_requests(ctx: ClaimReward, u: UserData) -> Seq<LedgerRequest> {
    seq![
        reward_request(
            ctx.pool_base_account.address,
            ctx.user_base_account.address,
            ctx.pool_address,
            spec_accrued(u.principal, ctx.pool.apy, u.last_update, ctx.now),
        ),
    ]
}

/// Pay out the reward accrued since the last settlement, leaving the
/// principal untouched.  Unlike `stake` and `un_stake`, which simply skip
/// the payout, a claim with no prior stake or before a full elapsed day is
/// a fault.
pub fn claim_reward(ctx: &ClaimReward, user_data: &mut UserData) -> (r: Result<
    Vec<LedgerRequest>,
    PoolError,
>)
    requires
        ctx.now >= old(user_data).last_update,
        claim_error(*ctx, *old(user_data)) is None ==> settlement_fits(
            *old(user_data),
            ctx.pool.apy,
            ctx.now,
        ),
    ensures
        match claim_error(*ctx, *old(user_data)) {
            Some(e) => r == Err::<Vec<LedgerRequest>, PoolError>(e) && *final(user_data) == *old(
                user_data,
            ),
            None => {
                &&& r is Ok
                &&& (r matches Ok(reqs) ==> reqs@ == claim_requests(*ctx, *old(user_data)))
                &&& *final(user_data) == user_after_claim(
                    *old(user_data),
                    ctx.pool.apy,
                    ctx.now,
                )
            },
        },
{
    if !ctx.owner.is_signer {
        return Err(PoolError::AuthorizationFailure);
    }
    if !addr_eq(&user_data.owner, &ctx.owner.key) {
        return Err(PoolError::AuthorizationFailure);
    }
    if !addr_eq(&ctx.pool_address, &ctx.derived_pool_address) {
        return Err(PoolError::AddressMismatch);
    }
    if !addr_eq(&ctx.user_data_address, &ctx.derived_user_address) {
        return Err(PoolError::AddressMismatch);
    }
    if !addr_eq(&ctx.base_mint.owner_program, &ctx.token_program) || !addr_eq(
        &ctx.base_mint.address,
        &ctx.pool.base_mint,
    ) {
        return Err(PoolError::MintMismatch);
    }
    if !addr_eq(&ctx.user_base_account.owner, &ctx.owner.key) || !addr_eq(
        &ctx.user_base_account.mint,
        &ctx.pool.base_mint,
    ) {
        return Err(PoolError::TokenAccountMismatch);
    }
    if !addr_eq(&ctx.pool_base_account.owner, &ctx.pool_address) || !addr_eq(
        &ctx.pool_base_account.mint,
        &ctx.pool.base_mint,
    ) {
        return Err(PoolError::TokenAccountMismatch);
    }
    if user_data.last_update == 0 {
        return Err(PoolError::NoStakeAmount);
    }
    let elapsed_days = (ctx.now - user_data.last_update) / crate::accrual::SECONDS_PER_DAY;
    if elapsed_days == 0 {
        return Err(PoolError::NoRewardAmount);
    }
    let (reward, _elapsed_days) = accrue(
        user_data.principal,
        ctx.pool.apy,
        user_data.last_update,
        ctx.now,
    );
    let mut requests: Vec<LedgerRequest> = Vec::new();
    requests.push(
        LedgerRequest::Transfer {
            from: ctx.pool_base_account.address,
            to: ctx.user_base_account.address,
            amount: reward,
            authority: Authority::PoolDelegate { pool: ctx.pool_address },
        },
    );
    user_data.reward_paid = user_data.reward_paid + reward;
    user_data.last_update = ctx.now;
    proof {
        assert(requests@ =~= claim_requests(*ctx, *old(user_data)));
    }
    Ok(requests)
}

} // verus!
