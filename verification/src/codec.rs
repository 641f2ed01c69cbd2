//! Byte layout of the persisted records.
//!
//! A pool record is 130 bytes: owner, seed, bump, base mint, receipt mint,
//! apy.  A stake record is 57 bytes: owner, bump, then principal, last
//! update and reward paid as little-endian eight-byte integers.  Field
//! order is significant: records already stored keep their meaning.

use vstd::bytes::lemma_auto_spec_u64_to_from_le_bytes;
use vstd::bytes::spec_u64_from_le_bytes;
use vstd::bytes::spec_u64_to_le_bytes;
use vstd::bytes::u64_from_le_bytes;
use vstd::bytes::u64_to_le_bytes;
use vstd::prelude::*;
use vstd::slice::slice_subrange;

use crate::state::Addr;
use crate::state::Pool;
use crate::state::UserData;

verus! {

/// Stored size of a pool record.
pub const POOL_SIZE: usize = 130;

/// Stored size of a stake record.
pub const USER_DATA_SIZE: usize = 57;

/// The bytes a pool record is stored as.
pub open spec fn pool_bytes(p: Pool) -> Seq<u8> {
    p.owner@ + p.seed@ + seq![p.bump] + p.base_mint@ + p.receipt_mint@ + seq![p.apy]
}

/// The bytes a stake record is stored as.
pub open spec fn user_bytes(u: UserData) -> Seq<u8> {
    u.owner@ + seq![u.bump] + spec_u64_to_le_bytes(u.principal) + spec_u64_to_le_bytes(
        u.last_update,
    ) + spec_u64_to_le_bytes(u.reward_paid)
}

/// A pool record always stores as exactly `POOL_SIZE` bytes.
pub proof fn lemma_pool_bytes_len(p: Pool)
    ensures
        pool_bytes(p).len() == POOL_SIZE,
{
}

/// A stake record always stores as exactly `USER_DATA_SIZE` bytes.
pub proof fn lemma_user_bytes_len(u: UserData)
    ensures
        user_bytes(u).len() == USER_DATA_SIZE,
{
    lemma_auto_spec_u64_to_from_le_bytes();
}

/// Append an address to the output.
fn push_addr(out: &mut Vec<u8>, a: &Addr)
    ensures
        final(out)@ == old(out)@ + a@,
{
    let mut i: usize = 0;
    while i < 32
        invariant
            0 <= i <= 32,
            out@ == old(out)@ + a@.subrange(0, i as int),
        decreases 32 - i,
    {
        out.push(a[i]);
        proof {
            assert(old(out)@ + a@.subrange(0, i + 1) =~= (old(out)@ + a@.subrange(0, i as int)).push(
                a@[i as int],
            ));
        }
        i += 1;
    }
    proof {
        assert(a@.subrange(0, 32) =~= a@);
    }
}

/// Read an address out of stored bytes.
fn read_addr(b: &[u8], offset: usize) -> (r: Addr)
    requires
        offset + 32 <= b@.len(),
        b@.len() <= usize::MAX,
    ensures
        r@ == b@.subrange(offset as int, offset + 32),
{
    let mut r: Addr = [0u8; 32];
    let mut i: usize = 0;
    while i < 32
        invariant
            0 <= i <= 32,
            offset + 32 <= b@.len(),
            b@.len() <= usize::MAX,
            forall|j: int| 0 <= j < i ==> r@[j] == b@[offset + j],
        decreases 32 - i,
    {
        r[i] = b[offset + i];
        i += 1;
    }
    proof {
        assert(r@ =~= b@.subrange(offset as int, offset + 32));
    }
    r
}

/// Store a pool record as its `POOL_SIZE` bytes.
pub fn pool_to_bytes(p: &Pool) -> (r: Vec<u8>)
    ensures
        r@ == pool_bytes(*p),
        r@.len() == POOL_SIZE,
{
    let mut out: Vec<u8> = Vec::new();
    push_addr(&mut out, &p.owner);
    push_addr(&mut out, &p.seed);
    out.push(p.bump);
    push_addr(&mut out, &p.base_mint);
    push_addr(&mut out, &p.receipt_mint);
    out.push(p.apy);
    proof {
        assert(out@ =~= pool_bytes(*p));
    }
    out
}

/// Store a stake record as its `USER_DATA_SIZE` bytes.
pub fn user_to_bytes(u: &UserData) -> (r: Vec<u8>)
    ensures
        r@ == user_bytes(*u),
        r@.len() == USER_DATA_SIZE,
{
    let mut out: Vec<u8> = Vec::new();
    push_addr(&mut out, &u.owner);
    out.push(u.bump);
    let mut principal = u64_to_le_bytes(u.principal);
    out.append(&mut principal);
    let mut last_update = u64_to_le_bytes(u.last_update);
    out.append(&mut last_update);
    let mut reward_paid = u64_to_le_bytes(u.reward_paid);
    out.append(&mut reward_paid);
    proof {
        lemma_auto_spec_u64_to_from_le_bytes();
        assert(out@ =~= user_bytes(*u));
    }
    out
}

/// Decode a pool record: exactly `POOL_SIZE` bytes, in the stored field
/// order.  Whatever record comes back stores as exactly the given bytes.
pub fn pool_from_bytes(b: &[u8]) -> (r: Option<Pool>)
    ensures
        r is Some <==> b@.len() == POOL_SIZE,
        r matches Some(p) ==> pool_bytes(p) == b@,
{
    if b.len() != POOL_SIZE {
        return None;
    }
    let p = Pool {
        owner: read_addr(b, 0),
        seed: read_addr(b, 32),
        bump: *slice_subrange(b, 64, 65).first().unwrap(),
        base_mint: read_addr(b, 65),
        receipt_mint: read_addr(b, 97),
        apy: *slice_subrange(b, 129, 130).first().unwrap(),
    };
    proof {
        assert(pool_bytes(p) =~= b@);
    }
    Some(p)
}

/// Decode a stake record: exactly `USER_DATA_SIZE` bytes, in the stored
/// field order.  Whatever record comes back stores as exactly the given
/// bytes.
pub fn user_from_bytes(b: &[u8]) -> (r: Option<UserData>)
    ensures
        r is Some <==> b@.len() == USER_DATA_SIZE,
        r matches Some(u) ==> user_bytes(u) == b@,
{
    if b.len() != USER_DATA_SIZE {
        return None;
    }
    let u = UserData {
        owner: read_addr(b, 0),
        bump: *slice_subrange(b, 32, 33).first().unwrap(),
        principal: u64_from_le_bytes(slice_subrange(b, 33, 41)),
        last_update: u64_from_le_bytes(slice_subrange(b, 41, 49)),
        reward_paid: u64_from_le_bytes(slice_subrange(b, 49, 57)),
    };
    proof {
        lemma_auto_spec_u64_to_from_le_bytes();
        assert(user_bytes(u) =~= b@);
    }
    Some(u)
}

/// Two pool records that store as the same bytes are the same record:
/// decoding is unambiguous.
pub proof fn lemma_pool_bytes_injective(p: Pool, q: Pool)
    requires
        pool_bytes(p) == pool_bytes(q),
    ensures
        p == q,
{
    let bp = pool_bytes(p);
    let bq = pool_bytes(q);
    assert forall|i: int| 0 <= i < 32 implies p.owner@[i] == q.owner@[i] by {
        assert(bp[i] == p.owner@[i]);
        assert(bq[i] == q.owner@[i]);
    }
    assert(p.owner =~= q.owner);
    assert forall|i: int| 0 <= i < 32 implies p.seed@[i] == q.seed@[i] by {
        assert(bp[32 + i] == p.seed@[i]);
        assert(bq[32 + i] == q.seed@[i]);
    }
    assert(p.seed =~= q.seed);
    assert(bp[64] == p.bump && bq[64] == q.bump);
    assert forall|i: int| 0 <= i < 32 implies p.base_mint@[i] == q.base_mint@[i] by {
        assert(bp[65 + i] == p.base_mint@[i]);
        assert(bq[65 + i] == q.base_mint@[i]);
    }
    assert(p.base_mint =~= q.base_mint);
    assert forall|i: int| 0 <= i < 32 implies p.receipt_mint@[i] == q.receipt_mint@[i] by {
        assert(bp[97 + i] == p.receipt_mint@[i]);
        assert(bq[97 + i] == q.receipt_mint@[i]);
    }
    assert(p.receipt_mint =~= q.receipt_mint);
    assert(bp[129] == p.apy && bq[129] == q.apy);
}

/// Two stake records that store as the same bytes are the same record:
/// decoding is unambiguous.
pub proof fn lemma_user_bytes_injective(u: UserData, v: UserData)
    requires
        user_bytes(u) == user_bytes(v),
    ensures
        u == v,
{
    lemma_auto_spec_u64_to_from_le_bytes();
    let bu = user_bytes(u);
    let bv = user_bytes(v);
    assert forall|i: int| 0 <= i < 32 implies u.owner@[i] == v.owner@[i] by {
        assert(bu[i] == u.owner@[i]);
        assert(bv[i] == v.owner@[i]);
    }
    assert(u.owner =~= v.owner);
    assert(bu[32] == u.bump && bv[32] == v.bump);
    assert(spec_u64_to_le_bytes(u.principal) =~= spec_u64_to_le_bytes(v.principal)) by {
        assert forall|i: int| 0 <= i < 8 implies spec_u64_to_le_bytes(u.principal)[i]
            == spec_u64_to_le_bytes(v.principal)[i] by {
            assert(bu[33 + i] == spec_u64_to_le_bytes(u.principal)[i]);
            assert(bv[33 + i] == spec_u64_to_le_bytes(v.principal)[i]);
        }
    }
    assert(spec_u64_from_le_bytes(spec_u64_to_le_bytes(u.principal)) == u.principal);
    assert(spec_u64_to_le_bytes(u.last_update) =~= spec_u64_to_le_bytes(v.last_update)) by {
        assert forall|i: int| 0 <= i < 8 implies spec_u64_to_le_bytes(u.last_update)[i]
            == spec_u64_to_le_bytes(v.last_update)[i] by {
            assert(bu[41 + i] == spec_u64_to_le_bytes(u.last_update)[i]);
            assert(bv[41 + i] == spec_u64_to_le_bytes(v.last_update)[i]);
        }
    }
    assert(spec_u64_from_le_bytes(spec_u64_to_le_bytes(u.last_update)) == u.last_update);
    assert(spec_u64_to_le_bytes(u.reward_paid) =~= spec_u64_to_le_bytes(v.reward_paid)) by {
        assert forall|i: int| 0 <= i < 8 implies spec_u64_to_le_bytes(u.reward_paid)[i]
            == spec_u64_to_le_bytes(v.reward_paid)[i] by {
            assert(bu[49 + i] == spec_u64_to_le_bytes(u.reward_paid)[i]);
            assert(bv[49 + i] == spec_u64_to_le_bytes(v.reward_paid)[i]);
        }
    }
    assert(spec_u64_from_le_bytes(spec_u64_to_le_bytes(u.reward_paid)) == u.reward_paid);
}

} // verus!
