use staking_pool::accrual::SECONDS_PER_DAY;
use staking_pool::state::Authority;
use staking_pool::state::LedgerRequest;
use staking_pool::state::MintAccount;
use staking_pool::state::Pool;
use staking_pool::state::PoolError;
use staking_pool::state::SignerInfo;
use staking_pool::state::TokenAccount;
use staking_pool::state::UserData;
use staking_pool::transitions::claim_reward;
use staking_pool::transitions::init_user;
use staking_pool::transitions::initialize;
use staking_pool::transitions::stake;
use staking_pool::transitions::un_stake;
use staking_pool::transitions::update;
use staking_pool::transitions::ClaimReward;
use staking_pool::transitions::InitUser;
use staking_pool::transitions::Initialize;
use staking_pool::transitions::Stake;
use staking_pool::transitions::UnStake;
use staking_pool::transitions::Update;

fn addr(n: u8) -> [u8; 32] {
    [n; 32]
}

const TOKEN_PROGRAM: u8 = 1;
const POOL_OWNER: u8 = 2;
const SEED: u8 = 3;
const BASE_MINT: u8 = 4;
const RECEIPT_MINT: u8 = 5;
const POOL_ADDRESS: u8 = 6;
const USER: u8 = 7;
const USER_DATA_ADDRESS: u8 = 8;
const USER_BASE_ACCOUNT: u8 = 9;
const POOL_BASE_ACCOUNT: u8 = 10;
const USER_RECEIPT_ACCOUNT: u8 = 11;

fn good_pool() -> Pool {
    Pool {
        owner: addr(POOL_OWNER),
        seed: addr(SEED),
        bump: 7,
        base_mint: addr(BASE_MINT),
        receipt_mint: addr(RECEIPT_MINT),
        apy: 10,
    }
}

fn good_user(principal: u64, last_update: u64, reward_paid: u64) -> UserData {
    UserData { owner: addr(USER), bump: 9, principal, last_update, reward_paid }
}

fn good_stake_ctx(now: u64) -> Stake {
    Stake {
        owner: SignerInfo { key: addr(USER), is_signer: true },
        pool: good_pool(),
        pool_address: addr(POOL_ADDRESS),
        derived_pool_address: addr(POOL_ADDRESS),
        user_data_address: addr(USER_DATA_ADDRESS),
        derived_user_address: addr(USER_DATA_ADDRESS),
        base_mint: MintAccount { address: addr(BASE_MINT), owner_program: addr(TOKEN_PROGRAM) },
        receipt_mint: MintAccount {
            address: addr(RECEIPT_MINT),
            owner_program: addr(TOKEN_PROGRAM),
        },
        user_base_account: TokenAccount {
            address: addr(USER_BASE_ACCOUNT),
            owner: addr(USER),
            mint: addr(BASE_MINT),
        },
        pool_base_account: TokenAccount {
            address: addr(POOL_BASE_ACCOUNT),
            owner: addr(POOL_ADDRESS),
            mint: addr(BASE_MINT),
        },
        user_receipt_account: TokenAccount {
            address: addr(USER_RECEIPT_ACCOUNT),
            owner: addr(USER),
            mint: addr(RECEIPT_MINT),
        },
        token_program: addr(TOKEN_PROGRAM),
        now,
    }
}

fn good_unstake_ctx(now: u64) -> UnStake {
    let s = good_stake_ctx(now);
    UnStake {
        owner: s.owner,
        pool: s.pool,
        pool_address: s.pool_address,
        derived_pool_address: s.derived_pool_address,
        user_data_address: s.user_data_address,
        derived_user_address: s.derived_user_address,
        base_mint: s.base_mint,
        receipt_mint: s.receipt_mint,
        user_base_account: s.user_base_account,
        pool_base_account: s.pool_base_account,
        user_receipt_account: s.user_receipt_account,
        token_program: s.token_program,
        now,
    }
}

fn good_claim_ctx(now: u64) -> ClaimReward {
    let s = good_stake_ctx(now);
    ClaimReward {
        owner: s.owner,
        pool: s.pool,
        pool_address: s.pool_address,
        derived_pool_address: s.derived_pool_address,
        user_data_address: s.user_data_address,
        derived_user_address: s.derived_user_address,
        base_mint: s.base_mint,
        user_base_account: s.user_base_account,
        pool_base_account: s.pool_base_account,
        token_program: s.token_program,
        now,
    }
}

fn good_initialize_ctx() -> Initialize {
    Initialize {
        owner: SignerInfo { key: addr(POOL_OWNER), is_signer: true },
        pool_address: addr(POOL_ADDRESS),
        derived_pool_address: addr(POOL_ADDRESS),
        seed: addr(SEED),
        base_mint: MintAccount { address: addr(BASE_MINT), owner_program: addr(TOKEN_PROGRAM) },
        receipt_mint: MintAccount {
            address: addr(RECEIPT_MINT),
            owner_program: addr(TOKEN_PROGRAM),
        },
        token_program: addr(TOKEN_PROGRAM),
    }
}

fn blank_pool() -> Pool {
    Pool {
        owner: addr(0),
        seed: addr(0),
        bump: 0,
        base_mint: addr(0),
        receipt_mint: addr(0),
        apy: 0,
    }
}

#[test]
fn initialize_writes_every_field() {
    let ctx = good_initialize_ctx();
    let mut pool = blank_pool();
    let r = initialize(&ctx, &mut pool, 7, 10);
    assert_eq!(r, Ok(()));
    assert_eq!(pool, good_pool());
}

#[test]
fn initialize_requires_signature() {
    let mut ctx = good_initialize_ctx();
    ctx.owner.is_signer = false;
    let mut pool = blank_pool();
    let r = initialize(&ctx, &mut pool, 7, 10);
    assert_eq!(r, Err(PoolError::AuthorizationFailure));
    assert_eq!(pool, blank_pool());
}

#[test]
fn initialize_rejects_wrong_pool_address() {
    let mut ctx = good_initialize_ctx();
    ctx.pool_address = addr(99);
    let mut pool = blank_pool();
    let r = initialize(&ctx, &mut pool, 7, 10);
    assert_eq!(r, Err(PoolError::AddressMismatch));
    assert_eq!(pool, blank_pool());
}

#[test]
fn initialize_rejects_foreign_mint() {
    let mut ctx = good_initialize_ctx();
    ctx.receipt_mint.owner_program = addr(99);
    let mut pool = blank_pool();
    let r = initialize(&ctx, &mut pool, 7, 10);
    assert_eq!(r, Err(PoolError::MintMismatch));
    assert_eq!(pool, blank_pool());
}

#[test]
fn update_rewrites_pool_and_hands_over_ownership() {
    let ctx = Update {
        owner: SignerInfo { key: addr(POOL_OWNER), is_signer: true },
        new_owner: addr(42),
        pool_address: addr(POOL_ADDRESS),
        derived_pool_address: addr(POOL_ADDRESS),
        seed: addr(SEED),
        base_mint: MintAccount { address: addr(BASE_MINT), owner_program: addr(TOKEN_PROGRAM) },
        receipt_mint: MintAccount {
            address: addr(RECEIPT_MINT),
            owner_program: addr(TOKEN_PROGRAM),
        },
        token_program: addr(TOKEN_PROGRAM),
    };
    let mut pool = good_pool();
    let r = update(&ctx, &mut pool, 7, 50);
    assert_eq!(r, Ok(()));
    assert_eq!(pool.owner, addr(42));
    assert_eq!(pool.apy, 50);
}

#[test]
fn update_requires_current_owner() {
    let ctx = Update {
        owner: SignerInfo { key: addr(99), is_signer: true },
        new_owner: addr(42),
        pool_address: addr(POOL_ADDRESS),
        derived_pool_address: addr(POOL_ADDRESS),
        seed: addr(SEED),
        base_mint: MintAccount { address: addr(BASE_MINT), owner_program: addr(TOKEN_PROGRAM) },
        receipt_mint: MintAccount {
            address: addr(RECEIPT_MINT),
            owner_program: addr(TOKEN_PROGRAM),
        },
        token_program: addr(TOKEN_PROGRAM),
    };
    let mut pool = good_pool();
    let r = update(&ctx, &mut pool, 7, 50);
    assert_eq!(r, Err(PoolError::AuthorizationFailure));
    assert_eq!(pool, good_pool());
}

#[test]
fn init_user_zeroes_every_numeric_field() {
    let ctx = InitUser {
        owner: SignerInfo { key: addr(USER), is_signer: true },
        user_data_address: addr(USER_DATA_ADDRESS),
        derived_user_address: addr(USER_DATA_ADDRESS),
    };
    let r = init_user(&ctx, 9);
    assert_eq!(r, Ok(good_user(0, 0, 0)));
}

#[test]
fn init_user_rejects_wrong_address() {
    let ctx = InitUser {
        owner: SignerInfo { key: addr(USER), is_signer: true },
        user_data_address: addr(USER_DATA_ADDRESS),
        derived_user_address: addr(99),
    };
    let r = init_user(&ctx, 9);
    assert_eq!(r, Err(PoolError::AddressMismatch));
}

#[test]
fn first_stake_moves_deposit_and_mints_receipts() {
    let now = 5 * SECONDS_PER_DAY;
    let ctx = good_stake_ctx(now);
    let mut user = good_user(0, 0, 0);
    let r = stake(&ctx, &mut user, 500).unwrap();
    assert_eq!(
        r,
        vec![
            LedgerRequest::Transfer {
                from: addr(USER_BASE_ACCOUNT),
                to: addr(POOL_BASE_ACCOUNT),
                amount: 500,
                authority: Authority::Caller { key: addr(USER) },
            },
            LedgerRequest::MintTo {
                mint: addr(RECEIPT_MINT),
                to: addr(USER_RECEIPT_ACCOUNT),
                amount: 500,
                authority: Authority::PoolDelegate { pool: addr(POOL_ADDRESS) },
            },
        ]
    );
    assert_eq!(user, good_user(500, now, 0));
}

#[test]
fn stake_settles_accrued_reward_first() {
    // apy 10, principal 36500, two elapsed days: reward 20.
    let last_update = SECONDS_PER_DAY;
    let now = last_update + 2 * SECONDS_PER_DAY;
    let ctx = good_stake_ctx(now);
    let mut user = good_user(36500, last_update, 3);
    let r = stake(&ctx, &mut user, 500).unwrap();
    assert_eq!(r.len(), 3);
    assert_eq!(
        r[0],
        LedgerRequest::Transfer {
            from: addr(POOL_BASE_ACCOUNT),
            to: addr(USER_BASE_ACCOUNT),
            amount: 20,
            authority: Authority::PoolDelegate { pool: addr(POOL_ADDRESS) },
        }
    );
    assert_eq!(user, good_user(37000, now, 23));
}

#[test]
fn stake_rejects_unsigned_caller() {
    let mut ctx = good_stake_ctx(SECONDS_PER_DAY);
    ctx.owner.is_signer = false;
    let mut user = good_user(100, 0, 0);
    let r = stake(&ctx, &mut user, 500);
    assert_eq!(r, Err(PoolError::AuthorizationFailure));
    assert_eq!(user, good_user(100, 0, 0));
}

#[test]
fn stake_rejects_foreign_stake_record() {
    let ctx = good_stake_ctx(SECONDS_PER_DAY);
    let mut user = good_user(100, 0, 0);
    user.owner = addr(99);
    let r = stake(&ctx, &mut user, 500);
    assert_eq!(r, Err(PoolError::AuthorizationFailure));
    assert_eq!(user.principal, 100);
}

#[test]
fn stake_rejects_wrong_user_address() {
    let mut ctx = good_stake_ctx(SECONDS_PER_DAY);
    ctx.derived_user_address = addr(99);
    let mut user = good_user(100, 0, 0);
    let r = stake(&ctx, &mut user, 500);
    assert_eq!(r, Err(PoolError::AddressMismatch));
    assert_eq!(user, good_user(100, 0, 0));
}

#[test]
fn stake_rejects_mint_not_matching_pool() {
    let mut ctx = good_stake_ctx(SECONDS_PER_DAY);
    ctx.base_mint.address = addr(99);
    let mut user = good_user(100, 0, 0);
    let r = stake(&ctx, &mut user, 500);
    assert_eq!(r, Err(PoolError::MintMismatch));
}

#[test]
fn stake_rejects_foreign_token_account() {
    let mut ctx = good_stake_ctx(SECONDS_PER_DAY);
    ctx.user_base_account.owner = addr(99);
    let mut user = good_user(100, 0, 0);
    let r = stake(&ctx, &mut user, 500);
    assert_eq!(r, Err(PoolError::TokenAccountMismatch));
}

#[test]
fn unstake_withdraws_what_is_asked() {
    let now = 5 * SECONDS_PER_DAY;
    let ctx = good_unstake_ctx(now);
    let mut user = good_user(800, now, 0);
    let r = un_stake(&ctx, &mut user, 300).unwrap();
    assert_eq!(
        r,
        vec![
            LedgerRequest::Burn {
                mint: addr(RECEIPT_MINT),
                from: addr(USER_RECEIPT_ACCOUNT),
                amount: 300,
                authority: Authority::Caller { key: addr(USER) },
            },
            LedgerRequest::Transfer {
                from: addr(POOL_BASE_ACCOUNT),
                to: addr(USER_BASE_ACCOUNT),
                amount: 300,
                authority: Authority::PoolDelegate { pool: addr(POOL_ADDRESS) },
            },
        ]
    );
    assert_eq!(user, good_user(500, now, 0));
}

#[test]
fn unstake_clamps_to_principal_and_does_not_fail() {
    let now = 5 * SECONDS_PER_DAY;
    let ctx = good_unstake_ctx(now);
    let mut user = good_user(800, now, 0);
    let r = un_stake(&ctx, &mut user, 10_000).unwrap();
    assert_eq!(
        r,
        vec![
            LedgerRequest::Burn {
                mint: addr(RECEIPT_MINT),
                from: addr(USER_RECEIPT_ACCOUNT),
                amount: 800,
                authority: Authority::Caller { key: addr(USER) },
            },
            LedgerRequest::Transfer {
                from: addr(POOL_BASE_ACCOUNT),
                to: addr(USER_BASE_ACCOUNT),
                amount: 800,
                authority: Authority::PoolDelegate { pool: addr(POOL_ADDRESS) },
            },
        ]
    );
    assert_eq!(user, good_user(0, now, 0));
}

#[test]
fn stake_then_unstake_same_day_returns_principal_without_reward() {
    let now = 5 * SECONDS_PER_DAY;
    let mut user = good_user(1000, 2 * SECONDS_PER_DAY, 0);
    let before = user.principal;

    let stake_reqs = stake(&good_stake_ctx(now), &mut user, 700).unwrap();
    // Three elapsed days on apy 10 over principal 1000: 1000*10/100/365 == 0,
    // so no reward request is owed even here.
    assert_eq!(stake_reqs.len(), 2);
    assert_eq!(user.principal, 1700);

    let unstake_reqs = un_stake(&good_unstake_ctx(now), &mut user, 700).unwrap();
    // No reward payout: only the receipt burn and the principal withdrawal.
    assert_eq!(unstake_reqs.len(), 2);
    assert!(matches!(unstake_reqs[0], LedgerRequest::Burn { .. }));
    assert_eq!(user.principal, before);
    assert_eq!(user.reward_paid, 0);
    assert_eq!(user.last_update, now);
}

#[test]
fn claim_with_no_stake_fails() {
    let ctx = good_claim_ctx(5 * SECONDS_PER_DAY);
    let mut user = good_user(0, 0, 17);
    let r = claim_reward(&ctx, &mut user);
    assert_eq!(r, Err(PoolError::NoStakeAmount));
    assert_eq!(user, good_user(0, 0, 17));
}

#[test]
fn claim_same_day_fails_and_changes_nothing() {
    let now = 5 * SECONDS_PER_DAY + 7;
    let ctx = good_claim_ctx(now);
    let mut user = good_user(36500, now, 17);
    let r = claim_reward(&ctx, &mut user);
    assert_eq!(r, Err(PoolError::NoRewardAmount));
    assert_eq!(user, good_user(36500, now, 17));
}

#[test]
fn claim_on_tiny_stake_succeeds_with_zero_payout() {
    // A full day elapsed, but 100 * 10 / 100 / 365 truncates to zero: the
    // claim still succeeds and transfers zero.
    let last_update = SECONDS_PER_DAY;
    let now = last_update + SECONDS_PER_DAY;
    let ctx = good_claim_ctx(now);
    let mut user = good_user(100, last_update, 0);
    let r = claim_reward(&ctx, &mut user).unwrap();
    assert_eq!(r.len(), 1);
    assert!(matches!(r[0], LedgerRequest::Transfer { amount: 0, .. }));
    assert_eq!(user, good_user(100, now, 0));
}

#[test]
fn claim_pays_reward_and_keeps_principal() {
    let last_update = SECONDS_PER_DAY;
    let now = last_update + 2 * SECONDS_PER_DAY;
    let ctx = good_claim_ctx(now);
    let mut user = good_user(36500, last_update, 3);
    let r = claim_reward(&ctx, &mut user).unwrap();
    assert_eq!(
        r,
        vec![LedgerRequest::Transfer {
            from: addr(POOL_BASE_ACCOUNT),
            to: addr(USER_BASE_ACCOUNT),
            amount: 20,
            authority: Authority::PoolDelegate { pool: addr(POOL_ADDRESS) },
        }]
    );
    assert_eq!(user, good_user(36500, now, 23));
}
