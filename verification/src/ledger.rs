//! The user ledger: per-account reputation snapshots.
//!
//! Each registered account owns one record: the tick it registered at, its
//! accumulated score, the era its score was last reconciled against, and its
//! rank. Records are created exactly once by registration, overwritten only by
//! reconciliation, and never deleted.

use std::collections::HashMap;
use vstd::prelude::*;

use crate::rank::Rank;

verus! {

broadcast use vstd::std_specs::hash::group_hash_axioms;

/// Opaque identity of a caller; equality is structural.
pub type AccountId = u64;

/// Tick at which an account registered.
pub type RegisteredAt = u32;

/// Accumulated reputation of an account.
pub type ReputationScore = u128;

/// The era start tick an account's score was last reconciled against.
pub type UserReputationEpoch = u32;

/// One account's reputation snapshot.
#[derive(Debug, Clone, Copy, PartialEq, Eq)]
pub struct UserRecord {
    /// Tick of registration; set once, never mutated.
    pub registered_at: RegisteredAt,
    /// Accumulated score; non-decreasing over the account's lifetime.
    pub score: ReputationScore,
    /// Era the score was last reconciled against; at most the current epoch.
    pub last_synced_epoch: UserReputationEpoch,
    /// Tenure tier; never regresses.
    pub rank: Rank,
}

/// Mapping from account to its reputation snapshot.
pub struct UserLedger {
    pub accounts: HashMap<AccountId, UserRecord>,
}

impl View for UserLedger {
    type V = Map<AccountId, UserRecord>;

    open spec fn view(&self) -> Map<AccountId, UserRecord> {
        self.accounts@
    }
}

impl UserLedger {
    /// An empty ledger.
    pub fn new() -> (r: Self)
        ensures
            r@ == Map::<AccountId, UserRecord>::empty(),
    {
        UserLedger { accounts: HashMap::new() }
    }

    /// Whether `account` has a record.
    pub fn contains(&self, account: AccountId) -> (r: bool)
        ensures
            r == self@.contains_key(account),
    {
        self.accounts.contains_key(&account)
    }

    /// The record of `account`, if it has one.
    pub fn get(&self, account: AccountId) -> (r: Option<UserRecord>)
        ensures
            r == if self@.contains_key(account) {
                Some(self@[account])
            } else {
                None::<UserRecord>
            },
    {
        match self.accounts.get(&account) {
            Some(record) => Some(*record),
            None => None,
        }
    }

    /// Creates or overwrites the record of `account`. The engine creates a
    /// record only through registration and overwrites it only through
    /// reconciliation.
    pub fn insert(&mut self, account: AccountId, record: UserRecord)
        ensures
            final(self)@ == old(self)@.insert(account, record),
    {
        self.accounts.insert(account, record);
    }
}

} // verus!
