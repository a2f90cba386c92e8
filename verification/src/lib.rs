//! A time-activity reputation engine.
//!
//! Accounts register once and later reconcile their reputation against the
//! current global era. Reconciliation scores the gap between the account's
//! last-synced epoch and the current era, scales it by the era's multiplier,
//! promotes the account's rank by tenure, and may roll the global era forward,
//! compounding the multiplier by one percent.
//!
//! The engine is pure with respect to its host: the caller's identity and the
//! current tick are passed in explicitly, and every notification the host
//! should emit is returned as a value. Each operation is all-or-nothing: an
//! error leaves the whole state exactly as it was.

pub mod engine;
pub mod era;
pub mod errors;
pub mod events;
pub mod ledger;
pub mod rank;

pub use engine::{GlobalEpoch, Repute, ERA_DURATION_TICKS};
pub use era::{EraTable, GlobalEpochEra, GlobalEpochMultiplier};
pub use errors::Error;
pub use events::{
    EraAndMultiplierUpdated, ReputationUpdate, ScoreCalculated, ScoreGenerated, UserRegistered,
};
pub use ledger::{AccountId, RegisteredAt, ReputationScore, UserLedger, UserRecord, UserReputationEpoch};
pub use rank::{Rank, SIX_MONTHS_TICKS, TWELVE_MONTHS_TICKS};
