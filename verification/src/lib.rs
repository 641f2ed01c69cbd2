//! A verified token-staking pool.
//!
//! Users deposit a base token into a pool, receive a receipt token one-for-one,
//! accrue time-based interest on their stake, and may withdraw principal plus
//! accrued reward.  This crate holds the accounting and authorization state
//! machine: the pool and per-user records, the reward accrual engine, the six
//! transitions that mutate the records, and the byte layout of the persisted
//! records.  Moving token balances, storing records, deriving storage
//! addresses and telling the time are the host's business: each transition
//! takes the supplied and re-derived addresses, the clock reading and the
//! account fields as plain values, and returns the ledger requests the host
//! must perform atomically with the record update.

pub mod accrual;
pub mod codec;
pub mod laws;
pub mod state;
pub mod transitions;
