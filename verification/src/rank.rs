//! Tenure-derived rank tiers and their only-forward promotion rule.
//!
//! A rank is a function of how long an account has been registered, measured
//! in ticks. Promotion is monotonic: an account never loses a rank it has
//! reached, even when the tenure-derived tier would be lower.

use vstd::prelude::*;

verus! {

/// Ticks of tenure beyond which an account is at least a `SideKick`
/// (about six months at one tick per six seconds).
pub const SIX_MONTHS_TICKS: u32 = 14400 * 30 * 6;

/// Ticks of tenure beyond which an account is at least a `Hero`
/// (about twelve months at one tick per six seconds).
pub const TWELVE_MONTHS_TICKS: u32 = 14400 * 30 * 12;

/// Reputation tier of an account, ordered from lowest to highest.
#[derive(Debug, Clone, Copy, PartialEq, Eq)]
pub enum Rank {
    Rookie,
    SideKick,
    Hero,
}

/// Position of a rank in the tier order: higher means a better rank.
pub open spec fn rank_value(r: Rank) -> int {
    match r {
        Rank::Rookie => 0,
        Rank::SideKick => 1,
        Rank::Hero => 2,
    }
}

/// The tier that tenure alone earns: strictly more than six months of ticks
/// earns `SideKick`, strictly more than twelve months earns `Hero`.
pub open spec fn rank_for_tenure(tenure: int) -> Rank {
    if tenure > TWELVE_MONTHS_TICKS {
        Rank::Hero
    } else if tenure > SIX_MONTHS_TICKS {
        Rank::SideKick
    } else {
        Rank::Rookie
    }
}

/// The higher of two ranks.
pub open spec fn max_rank(a: Rank, b: Rank) -> Rank {
    if rank_value(b) > rank_value(a) {
        b
    } else {
        a
    }
}

/// Position of a rank in the tier order, as a runtime value.
pub fn rank_strength(r: Rank) -> (v: u8)
    ensures
        v == rank_value(r),
{
    match r {
        Rank::Rookie => 0,
        Rank::SideKick => 1,
        Rank::Hero => 2,
    }
}

/// The tier that tenure alone earns.
pub fn rank_of_tenure(tenure: u32) -> (r: Rank)
    ensures
        r == rank_for_tenure(tenure as int),
{
    if tenure > TWELVE_MONTHS_TICKS {
        Rank::Hero
    } else if tenure > SIX_MONTHS_TICKS {
        Rank::SideKick
    } else {
        Rank::Rookie
    }
}

/// Promote-if-higher: the rank earned by `tenure`, unless the account already
/// holds a higher one, which it keeps.
pub fn promote(current: Rank, tenure: u32) -> (r: Rank)
    ensures
        r == max_rank(current, rank_for_tenure(tenure as int)),
        rank_value(r) >= rank_value(current),
{
    let candidate = rank_of_tenure(tenure);
    if rank_strength(candidate) > rank_strength(current) {
        candidate
    } else {
        current
    }
}

/// Law: rank never regresses. Whatever tenure a reconciliation computes,
/// the promoted rank is at least the rank already held, so over any sequence
/// of ticks an account's rank is non-decreasing.
pub proof fn lemma_rank_monotone(current: Rank, tenure: int)
    ensures
        rank_value(max_rank(current, rank_for_tenure(tenure))) >= rank_value(current),
{
}

} // verus!
