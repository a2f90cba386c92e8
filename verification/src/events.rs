//! Notifications the engine hands back to its host.
//!
//! The engine itself performs no emission: each operation returns the
//! notifications the host should append to its event sink, in the order they
//! are meant to appear, and only after the operation has applied all of its
//! state changes.

use vstd::prelude::*;

use crate::era::{GlobalEpochEra, GlobalEpochMultiplier};
use crate::ledger::{AccountId, UserReputationEpoch};

verus! {

/// A user registration occurred.
#[derive(Debug, Clone, Copy, PartialEq, Eq)]
pub struct UserRegistered {
    pub user: AccountId,
    pub epoch: UserReputationEpoch,
}

/// A time-based reputation score was computed.
#[derive(Debug, Clone, Copy, PartialEq, Eq)]
pub struct ScoreCalculated {
    pub user_epoch: UserReputationEpoch,
    pub epoch_era: GlobalEpochEra,
}

/// A user's reputation was reconciled.
#[derive(Debug, Clone, Copy, PartialEq, Eq)]
pub struct ScoreGenerated {
    pub user: AccountId,
    pub user_epoch: UserReputationEpoch,
    pub epoch_era: GlobalEpochEra,
}

/// The global era rolled over and the multiplier compounded.
#[derive(Debug, Clone, Copy, PartialEq, Eq)]
pub struct EraAndMultiplierUpdated {
    pub new_epoch: GlobalEpochEra,
    pub new_multiplier: GlobalEpochMultiplier,
}

/// Everything a successful, non-trivial reconciliation asks the host to emit,
/// in emission order: the score computation, then the era rollover if one
/// happened, then the reconciliation itself.
#[derive(Debug, Clone, Copy, PartialEq, Eq)]
pub struct ReputationUpdate {
    pub score_calculated: ScoreCalculated,
    pub era_update: Option<EraAndMultiplierUpdated>,
    pub score_generated: ScoreGenerated,
}

} // verus!
