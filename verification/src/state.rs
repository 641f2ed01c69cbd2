//! Records, account views and fault codes of the staking pool.

use vstd::prelude::*;

verus! {

/// A 32-byte storage address, as the host's addressing scheme hands it out.
pub type Addr = [u8; 32];

/// Configuration record of one staking pool, kept at the address derived
/// from `seed` and `bump`.
#[derive(Clone, Copy, Debug, PartialEq, Eq)]
pub struct Pool {
    /// The address authorized to reconfigure the pool.
    pub owner: Addr,
    /// The random value the pool's storage address was derived from.
    pub seed: Addr,
    /// Discriminator byte completing the address derivation.
    pub bump: u8,
    /// Identity of the deposit token.
    pub base_mint: Addr,
    /// Identity of the derivative receipt token.
    pub receipt_mint: Addr,
    /// Integer annual percentage yield.
    pub apy: u8,
}

/// Per-user stake record, kept at the address derived from the user's own
/// address and `bump`.
#[derive(Clone, Copy, Debug, PartialEq, Eq)]
pub struct UserData {
    /// The user this record belongs to.
    pub owner: Addr,
    /// Discriminator byte completing the address derivation.
    pub bump: u8,
    /// Currently staked amount.
    pub principal: u64,
    /// Time (seconds) of the last accrual settlement; 0 means never staked.
    pub last_update: u64,
    /// Cumulative reward transferred to the user so far.
    pub reward_paid: u64,
}

/// Fault codes of the pool's transitions.  Every fault aborts the whole
/// transition: no record changes and no ledger request is issued.
#[derive(Clone, Copy, Debug, PartialEq, Eq)]
pub enum PoolError {
    /// A supplied account address does not match its required derivation.
    AddressMismatch,
    /// The signer does not match the required owner, or did not sign at all.
    AuthorizationFailure,
    /// A supplied mint is not the pool's configured mint, or is not a mint
    /// of the ledger's token program.
    MintMismatch,
    /// A supplied token account's owner or mint field is wrong.
    TokenAccountMismatch,
    /// A reward claim was attempted with no prior stake.
    NoStakeAmount,
    /// A reward claim was attempted before a full day elapsed.
    NoRewardAmount,
    /// The external ledger service declined a transfer, mint or burn.
    LedgerRejected,
}

/// The transaction's signer as the host reports it: an address, and whether
/// a valid signature for it was actually presented.
#[derive(Clone, Copy, Debug, PartialEq, Eq)]
pub struct SignerInfo {
    pub key: Addr,
    pub is_signer: bool,
}

/// What a transition reads of a supplied mint account: its address and the
/// program that owns it (a genuine mint is owned by the token program).
#[derive(Clone, Copy, Debug, PartialEq, Eq)]
pub struct MintAccount {
    pub address: Addr,
    pub owner_program: Addr,
}

/// What a transition reads of a supplied token account: its address and its
/// recorded owner and mint.
#[derive(Clone, Copy, Debug, PartialEq, Eq)]
pub struct TokenAccount {
    pub address: Addr,
    pub owner: Addr,
    pub mint: Addr,
}

/// Who authorizes a ledger request: the human caller, by their own
/// signature, or the pool's delegated signing authority, an internal-only
/// credential derived from the pool's address that no private key backs.
#[derive(Clone, Copy, Debug, PartialEq, Eq)]
pub enum Authority {
    Caller { key: Addr },
    PoolDelegate { pool: Addr },
}

/// A balance movement a transition asks the external ledger service to
/// perform.  The host executes the requests of one transition atomically
/// with the record update, or discards everything.
#[derive(Clone, Copy, Debug, PartialEq, Eq)]
pub enum LedgerRequest {
    Transfer { from: Addr, to: Addr, amount: u64, authority: Authority },
    MintTo { mint: Addr, to: Addr, amount: u64, authority: Authority },
    Burn { mint: Addr, from: Addr, amount: u64, authority: Authority },
}

/// Compare two addresses byte for byte.
pub fn addr_eq(a: &Addr, b: &Addr) -> (r: bool)
    ensures
        r <==> *a == *b,
{
    let mut i: usize = 0;
    while i < 32
        invariant
            0 <= i <= 32,
            forall|j: int| 0 <= j < i ==> a@[j] == b@[j],
        decreases 32 - i,
    {
        if a[i] != b[i] {
            return false;
        }
        i += 1;
    }
    proof {
        assert(*a =~= *b);
    }
    true
}

} // verus!
