use staking_pool::codec::pool_from_bytes;
use staking_pool::codec::pool_to_bytes;
use staking_pool::codec::user_from_bytes;
use staking_pool::codec::user_to_bytes;
use staking_pool::codec::POOL_SIZE;
use staking_pool::codec::USER_DATA_SIZE;
use staking_pool::state::Pool;
use staking_pool::state::UserData;

fn addr(n: u8) -> [u8; 32] {
    [n; 32]
}

fn sample_pool() -> Pool {
    Pool {
        owner: addr(2),
        seed: addr(3),
        bump: 254,
        base_mint: addr(4),
        receipt_mint: addr(5),
        apy: 10,
    }
}

fn sample_user() -> UserData {
    UserData {
        owner: addr(7),
        bump: 253,
        principal: 0x0102_0304_0506_0708,
        last_update: 86400,
        reward_paid: u64::MAX,
    }
}

#[test]
fn pool_record_is_130_bytes() {
    assert_eq!(pool_to_bytes(&sample_pool()).len(), POOL_SIZE);
    assert_eq!(POOL_SIZE, 130);
}

#[test]
fn user_record_is_57_bytes() {
    assert_eq!(user_to_bytes(&sample_user()).len(), USER_DATA_SIZE);
    assert_eq!(USER_DATA_SIZE, 57);
}

#[test]
fn pool_round_trips() {
    let bytes = pool_to_bytes(&sample_pool());
    assert_eq!(pool_from_bytes(&bytes), Some(sample_pool()));
}

#[test]
fn user_round_trips() {
    let bytes = user_to_bytes(&sample_user());
    assert_eq!(user_from_bytes(&bytes), Some(sample_user()));
}

#[test]
fn numeric_fields_store_little_endian_in_order() {
    let bytes = user_to_bytes(&sample_user());
    assert_eq!(&bytes[0..32], &addr(7));
    assert_eq!(bytes[32], 253);
    assert_eq!(&bytes[33..41], &[8, 7, 6, 5, 4, 3, 2, 1]);
    assert_eq!(&bytes[41..49], &[0x80, 0x51, 1, 0, 0, 0, 0, 0]);
    assert_eq!(&bytes[49..57], &[0xff; 8]);
}

#[test]
fn wrong_length_decodes_to_nothing() {
    assert_eq!(pool_from_bytes(&[0u8; 129]), None);
    assert_eq!(pool_from_bytes(&[0u8; 131]), None);
    assert_eq!(user_from_bytes(&[0u8; 56]), None);
    assert_eq!(user_from_bytes(&[0u8; 58]), None);
}
