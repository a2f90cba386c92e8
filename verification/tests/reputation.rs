use std::collections::HashMap;

use repute::rank::{promote, rank_of_tenure};
use repute::{
    EraAndMultiplierUpdated, EraTable, Error, Rank, ReputationUpdate, Repute, ScoreCalculated,
    ScoreGenerated, UserLedger, UserRecord, UserRegistered, SIX_MONTHS_TICKS, TWELVE_MONTHS_TICKS,
};

fn engine_with(epoch: u32, eras: Vec<(u32, u32)>, users: Vec<(u64, UserRecord)>) -> Repute {
    let mut accounts = HashMap::new();
    for (account, record) in users {
        accounts.insert(account, record);
    }
    Repute {
        epoch,
        epoch_reputation_multiplier: EraTable { entries: eras },
        user_identifiers: UserLedger { accounts },
    }
}

fn record(registered_at: u32, score: u128, last_synced_epoch: u32, rank: Rank) -> UserRecord {
    UserRecord { registered_at, score, last_synced_epoch, rank }
}

#[test]
fn register_creates_entry_and_reports_event() {
    let mut s = Repute::new(10, 100);
    let r = s.register(7, 100);
    assert_eq!(r, Ok(UserRegistered { user: 7, epoch: 100 }));
    assert_eq!(s.get_user_reputation(7), Ok((0, 100, Rank::Rookie)));
}

#[test]
fn register_twice_always_fails_with_already_registered() {
    let mut s = Repute::new(1, 0);
    assert!(s.register(7, 0).is_ok());
    let before_epoch = s.epoch;
    let before_entry = s.user_identifiers.accounts.get(&7).copied();
    // a very long time later the second attempt still fails
    let r = s.register(7, 9_999_999);
    assert_eq!(r, Err(Error::AlreadyRegistered));
    assert_eq!(s.epoch, before_epoch);
    assert_eq!(s.user_identifiers.accounts.get(&7).copied(), before_entry);
}

#[test]
fn update_for_unregistered_account_fails() {
    let mut s = Repute::new(1, 100);
    assert_eq!(s.update_reputation(7, 200), Err(Error::NotRegistered));
}

#[test]
fn get_for_unregistered_account_fails() {
    let s = Repute::new(1, 100);
    assert_eq!(s.get_user_reputation(7), Err(Error::NotRegistered));
}

#[test]
fn scenario_init_at_tick_zero_never_divides() {
    // init with multiplier 1 at tick 0: the account registers synced to epoch 0,
    // so reconciliation is a no-op and the zero era start is never divided by
    let mut s = Repute::new(1, 0);
    assert!(s.register(7, 0).is_ok());
    let r = s.update_reputation(7, 100);
    assert_eq!(r, Ok(None));
    assert_eq!(s.get_user_reputation(7), Ok((0, 0, Rank::Rookie)));
}

#[test]
fn calculate_score_rejects_zero_era() {
    assert_eq!(Repute::calculate_reputation_score(0, 0), Err(Error::DivisionByZero));
}

#[test]
fn calculate_score_exact_values() {
    assert_eq!(
        Repute::calculate_reputation_score(100, 200),
        Ok((50, ScoreCalculated { user_epoch: 100, epoch_era: 200 }))
    );
    // integer division truncates toward zero
    assert_eq!(
        Repute::calculate_reputation_score(1, 3),
        Ok((33, ScoreCalculated { user_epoch: 1, epoch_era: 3 }))
    );
    assert_eq!(
        Repute::calculate_reputation_score(0, 5),
        Ok((0, ScoreCalculated { user_epoch: 0, epoch_era: 5 }))
    );
}

#[test]
fn calculate_score_rejects_overflowing_product() {
    // 43_000_000 * 100 exceeds u32::MAX
    assert_eq!(Repute::calculate_reputation_score(43_000_000, 43_000_001), Err(Error::ArithmeticOverflow));
}

#[test]
fn scenario_same_era_reconciliation_is_a_noop() {
    // init with multiplier 10 at tick 100; register at 100; by tick 200 the era
    // has not rolled over, the account is still synced to epoch 100, and
    // reconciliation returns without scoring anything
    let mut s = Repute::new(10, 100);
    assert!(s.register(7, 100).is_ok());
    let r = s.update_reputation(7, 200);
    assert_eq!(r, Ok(None));
    assert_eq!(s.get_user_reputation(7), Ok((0, 100, Rank::Rookie)));
}

#[test]
fn stale_account_accumulates_scaled_score() {
    let mut s = engine_with(
        200,
        vec![(100, 10), (200, 10)],
        vec![(7, record(0, 3, 100, Rank::Rookie))],
    );
    let r = s.update_reputation(7, 210);
    // raw = (100 * 100) / 200 = 50, scaled = 50 * 10 = 500, accumulated onto 3
    assert_eq!(
        r,
        Ok(Some(ReputationUpdate {
            score_calculated: ScoreCalculated { user_epoch: 100, epoch_era: 200 },
            era_update: None,
            score_generated: ScoreGenerated { user: 7, user_epoch: 200, epoch_era: 200 },
        }))
    );
    assert_eq!(s.get_user_reputation(7), Ok((503, 200, Rank::Rookie)));
    assert_eq!(s.epoch, 200);
}

#[test]
fn second_reconciliation_at_same_tick_changes_nothing() {
    let mut s = engine_with(
        200,
        vec![(100, 10), (200, 10)],
        vec![(7, record(0, 0, 100, Rank::Rookie))],
    );
    assert!(s.update_reputation(7, 210).is_ok());
    let after_first = s.get_user_reputation(7);
    let epoch_after_first = s.epoch;
    let eras_after_first = s.epoch_reputation_multiplier.entries.clone();
    let r = s.update_reputation(7, 210);
    assert_eq!(r, Ok(None));
    assert_eq!(s.get_user_reputation(7), after_first);
    assert_eq!(s.epoch, epoch_after_first);
    assert_eq!(s.epoch_reputation_multiplier.entries, eras_after_first);
}

#[test]
fn scenario_sidekick_exactly_past_six_months() {
    // tenure of exactly six months of ticks does not promote; one more tick does
    let stale = vec![(7, record(200, 0, 100, Rank::Rookie))];
    let mut at_boundary = engine_with(200, vec![(100, 1), (200, 1)], stale.clone());
    assert!(at_boundary.update_reputation(7, 200 + SIX_MONTHS_TICKS).is_ok());
    assert_eq!(at_boundary.get_user_reputation(7).unwrap().2, Rank::Rookie);

    let mut past_boundary = engine_with(200, vec![(100, 1), (200, 1)], stale);
    assert!(past_boundary.update_reputation(7, 200 + SIX_MONTHS_TICKS + 1).is_ok());
    assert_eq!(past_boundary.get_user_reputation(7).unwrap().2, Rank::SideKick);
}

#[test]
fn scenario_hero_exactly_past_twelve_months() {
    let stale = vec![(7, record(200, 0, 100, Rank::Rookie))];
    let mut at_boundary = engine_with(200, vec![(100, 1), (200, 1)], stale.clone());
    assert!(at_boundary.update_reputation(7, 200 + TWELVE_MONTHS_TICKS).is_ok());
    assert_eq!(at_boundary.get_user_reputation(7).unwrap().2, Rank::SideKick);

    let mut past_boundary = engine_with(200, vec![(100, 1), (200, 1)], stale);
    assert!(past_boundary.update_reputation(7, 200 + TWELVE_MONTHS_TICKS + 1).is_ok());
    assert_eq!(past_boundary.get_user_reputation(7).unwrap().2, Rank::Hero);
}

#[test]
fn promotion_picks_the_higher_rank() {
    assert_eq!(rank_of_tenure(0), Rank::Rookie);
    assert_eq!(rank_of_tenure(SIX_MONTHS_TICKS), Rank::Rookie);
    assert_eq!(rank_of_tenure(SIX_MONTHS_TICKS + 1), Rank::SideKick);
    assert_eq!(rank_of_tenure(TWELVE_MONTHS_TICKS), Rank::SideKick);
    assert_eq!(rank_of_tenure(TWELVE_MONTHS_TICKS + 1), Rank::Hero);
    assert_eq!(promote(Rank::Hero, 0), Rank::Hero);
    assert_eq!(promote(Rank::SideKick, 0), Rank::SideKick);
    assert_eq!(promote(Rank::Rookie, SIX_MONTHS_TICKS + 1), Rank::SideKick);
    assert_eq!(promote(Rank::Rookie, TWELVE_MONTHS_TICKS + 1), Rank::Hero);
}

#[test]
fn hero_rank_never_regresses() {
    // computed tier for a short tenure is Rookie, yet the held Hero rank stays
    let mut s = engine_with(
        200,
        vec![(100, 1), (200, 1)],
        vec![(7, record(195, 0, 100, Rank::Hero))],
    );
    assert!(s.update_reputation(7, 210).is_ok());
    assert_eq!(s.get_user_reputation(7).unwrap().2, Rank::Hero);
}

#[test]
fn scenario_era_rolls_over_only_strictly_past_duration() {
    // exactly one era duration elapsed: nothing happens
    let mut s = engine_with(100, vec![(100, 50)], vec![]);
    assert_eq!(s.update_era(100 + 14400), Ok(None));
    assert_eq!(s.epoch, 100);
    assert_eq!(s.epoch_reputation_multiplier.entries, vec![(100, 50)]);

    // one tick further: the era rolls over, and 50 + 50 / 100 truncates to 50,
    // so low multipliers never grow
    let r = s.update_era(100 + 14401);
    assert_eq!(r, Ok(Some(EraAndMultiplierUpdated { new_epoch: 14501, new_multiplier: 50 })));
    assert_eq!(s.epoch, 14501);
    assert_eq!(s.epoch_reputation_multiplier.entries, vec![(100, 50), (14501, 50)]);
}

#[test]
fn era_rollover_compounds_by_one_percent() {
    let mut s = engine_with(100, vec![(100, 200)], vec![]);
    let r = s.update_era(100 + 14401);
    assert_eq!(r, Ok(Some(EraAndMultiplierUpdated { new_epoch: 14501, new_multiplier: 202 })));
}

#[test]
fn reconciliation_rolls_the_era_over_and_reports_it() {
    let mut s = engine_with(
        200,
        vec![(100, 200), (200, 200)],
        vec![(7, record(100, 0, 100, Rank::Rookie))],
    );
    let now = 200 + 14401;
    let r = s.update_reputation(7, now);
    assert_eq!(
        r,
        Ok(Some(ReputationUpdate {
            score_calculated: ScoreCalculated { user_epoch: 100, epoch_era: 200 },
            era_update: Some(EraAndMultiplierUpdated { new_epoch: now, new_multiplier: 202 }),
            // the snapshot syncs to the era the score was computed against,
            // while the reported era is the fresh one
            score_generated: ScoreGenerated { user: 7, user_epoch: 200, epoch_era: now },
        }))
    );
    // raw = (100 * 100) / 200 = 50, scaled by 200 = 10000
    assert_eq!(s.get_user_reputation(7), Ok((10000, 200, Rank::Rookie)));
    assert_eq!(s.epoch, now);
    assert_eq!(
        s.epoch_reputation_multiplier.entries,
        vec![(100, 200), (200, 200), (now, 202)]
    );
}

#[test]
fn recorded_eras_are_never_altered_and_multipliers_never_decrease() {
    let mut s = engine_with(
        200,
        vec![(100, 200), (200, 200)],
        vec![(7, record(100, 0, 100, Rank::Rookie))],
    );
    let before = s.epoch_reputation_multiplier.entries.clone();
    assert!(s.update_reputation(7, 200 + 14401).is_ok());
    let after = &s.epoch_reputation_multiplier.entries;
    assert_eq!(&after[..before.len()], &before[..]);
    for pair in after.windows(2) {
        assert!(pair[0].0 < pair[1].0);
        assert!(pair[0].1 <= pair[1].1);
    }
}

#[test]
fn tick_before_registration_is_a_clock_regression() {
    let mut s = engine_with(
        200,
        vec![(100, 1), (200, 1)],
        vec![(7, record(150, 0, 100, Rank::Rookie))],
    );
    let r = s.update_reputation(7, 149);
    assert_eq!(r, Err(Error::ClockRegression));
    assert_eq!(s.get_user_reputation(7), Ok((0, 100, Rank::Rookie)));
}

#[test]
fn tick_before_active_era_is_a_clock_regression() {
    let mut s = engine_with(
        200,
        vec![(100, 1), (200, 1)],
        vec![(7, record(0, 0, 100, Rank::Rookie))],
    );
    let r = s.update_reputation(7, 150);
    assert_eq!(r, Err(Error::ClockRegression));
    // nothing was written: the reconciliation aborted whole
    assert_eq!(s.get_user_reputation(7), Ok((0, 100, Rank::Rookie)));
    assert_eq!(s.epoch, 200);
}

#[test]
fn accumulation_overflow_aborts_without_writing() {
    let mut s = engine_with(
        200,
        vec![(100, 1), (200, 1)],
        vec![(7, record(0, u128::MAX, 100, Rank::Rookie))],
    );
    let r = s.update_reputation(7, 210);
    assert_eq!(r, Err(Error::ArithmeticOverflow));
    assert_eq!(s.get_user_reputation(7), Ok((u128::MAX, 100, Rank::Rookie)));
}

#[test]
fn score_product_overflow_aborts_without_writing() {
    let mut s = engine_with(
        43_000_001,
        vec![(43_000_001, 1)],
        vec![(7, record(0, 0, 43_000_000, Rank::Rookie))],
    );
    let r = s.update_reputation(7, 43_000_002);
    assert_eq!(r, Err(Error::ArithmeticOverflow));
    assert_eq!(s.get_user_reputation(7), Ok((0, 43_000_000, Rank::Rookie)));
}

#[test]
fn multiplier_overflow_aborts_the_rollover() {
    let mut s = engine_with(100, vec![(100, u32::MAX)], vec![]);
    let r = s.update_era(100 + 14401);
    assert_eq!(r, Err(Error::ArithmeticOverflow));
    assert_eq!(s.epoch, 100);
    assert_eq!(s.epoch_reputation_multiplier.entries, vec![(100, u32::MAX)]);
}

#[test]
fn multiplier_overflow_aborts_reconciliation_whole() {
    let mut s = engine_with(
        200,
        vec![(100, u32::MAX), (200, u32::MAX)],
        vec![(7, record(0, 0, 100, Rank::Rookie))],
    );
    let r = s.update_reputation(7, 200 + 14401);
    assert_eq!(r, Err(Error::ArithmeticOverflow));
    // the snapshot was not written either: all-or-nothing
    assert_eq!(s.get_user_reputation(7), Ok((0, 100, Rank::Rookie)));
    assert_eq!(s.epoch, 200);
}

#[test]
fn era_update_before_era_start_is_a_clock_regression() {
    let mut s = engine_with(200, vec![(200, 1)], vec![]);
    assert_eq!(s.update_era(199), Err(Error::ClockRegression));
    assert_eq!(s.epoch, 200);
}

#[test]
fn era_table_rejects_colliding_and_stale_ticks() {
    let mut t = EraTable::new();
    assert_eq!(t.insert(100, 1), Ok(()));
    assert_eq!(t.insert(100, 1), Err(Error::EraKeyCollision));
    assert_eq!(t.insert(50, 1), Err(Error::EraKeyCollision));
    assert_eq!(t.insert(200, 2), Ok(()));
    assert_eq!(t.entries, vec![(100, 1), (200, 2)]);
}

#[test]
fn era_table_lookup() {
    let t = EraTable { entries: vec![(100, 1), (200, 2)] };
    assert_eq!(t.get_multiplier(100), Some(1));
    assert_eq!(t.get_multiplier(200), Some(2));
    assert_eq!(t.get_multiplier(150), None);
    assert_eq!(t.newest(), (200, 2));
}

#[test]
fn ledger_contains_get_insert() {
    let mut l = UserLedger::new();
    assert!(!l.contains(7));
    assert_eq!(l.get(7), None);
    let first = record(1, 2, 3, Rank::Rookie);
    l.insert(7, first);
    assert!(l.contains(7));
    assert_eq!(l.get(7), Some(first));
    // create-or-overwrite: a second insert replaces the record
    let second = record(1, 9, 4, Rank::SideKick);
    l.insert(7, second);
    assert_eq!(l.get(7), Some(second));
}

#[test]
fn default_engine_starts_with_multiplier_one() {
    let s = Repute::default(42);
    assert_eq!(s.epoch, 42);
    assert_eq!(s.epoch_reputation_multiplier.entries, vec![(42, 1)]);
}
