//! The reputation engine: registration, reconciliation, and era rollover.
//!
//! The engine owns the era table and the user ledger. The host passes the
//! caller's identity and the current tick into every operation and receives
//! back the notifications to emit. Every operation is all-or-nothing: on any
//! error the state is exactly what it was before the call.

use vstd::prelude::*;

use crate::era::{EraTable, GlobalEpochEra, GlobalEpochMultiplier};
use crate::errors::Error;
use crate::events::{
    EraAndMultiplierUpdated, ReputationUpdate, ScoreCalculated, ScoreGenerated, UserRegistered,
};
use crate::ledger::{AccountId, ReputationScore, UserLedger, UserRecord, UserReputationEpoch};
use crate::rank::{max_rank, promote, rank_for_tenure, rank_value, Rank};

verus! {

/// The start tick of the currently active era.
pub type GlobalEpoch = u32;

/// Ticks an era must strictly outlast before a reconciliation rolls it over
/// (about 24 hours at one tick per six seconds).
pub const ERA_DURATION_TICKS: u32 = 14400;

/// The raw reconciliation score: the truncated ratio, in percent, of the
/// account's last-synced epoch to the current era's start tick.
pub open spec fn raw_score(user_epoch: int, era: int) -> int {
    (user_epoch * 100) / era
}

/// Whether a tick of `now` rolls an era that started at `epoch` over:
/// strictly more than one era duration must have elapsed.
pub open spec fn era_rollover_due(epoch: int, now: int) -> bool {
    now - epoch > ERA_DURATION_TICKS
}

/// One percent compounding with integer truncation: multipliers below 100
/// never grow.
pub open spec fn compounded(multiplier: int) -> int {
    multiplier + multiplier / 100
}

/// Global engine state: the active era and the two records it orchestrates.
pub struct Repute {
    /// Start tick of the active era; always the newest key of the era table.
    pub epoch: GlobalEpoch,
    /// Append-only record of every era and its multiplier.
    pub epoch_reputation_multiplier: EraTable,
    /// Per-account reputation snapshots.
    pub user_identifiers: UserLedger,
}

impl Repute {
    /// The recorded eras, oldest first.
    pub open spec fn table(self) -> Seq<(GlobalEpochEra, GlobalEpochMultiplier)> {
        self.epoch_reputation_multiplier@
    }

    /// The per-account snapshots.
    pub open spec fn ledger(self) -> Map<AccountId, UserRecord> {
        self.user_identifiers@
    }

    /// The multiplier of the active era: the newest recorded one.
    pub open spec fn current_multiplier(self) -> GlobalEpochMultiplier {
        self.table().last().1
    }

    /// Well-formedness: the era table is well formed and non-empty, the active
    /// era is its newest entry, and no account is synced beyond the active era.
    pub open spec fn wf(self) -> bool {
        &&& self.epoch_reputation_multiplier.wf()
        &&& self.table().len() > 0
        &&& self.table().last().0 == self.epoch
        &&& forall|a: AccountId| #[trigger]
            self.ledger().contains_key(a) ==> self.ledger()[a].last_synced_epoch <= self.epoch
    }

    /// Whether `account` has a ledger entry.
    pub open spec fn spec_registered(self, account: AccountId) -> bool {
        self.ledger().contains_key(account)
    }

    /// Whether `account` is already reconciled against the active era.
    pub open spec fn spec_synced(self, account: AccountId) -> bool {
        self.spec_registered(account) && self.ledger()[account].last_synced_epoch == self.epoch
    }

    /// Whether the whole observable state equals that of `pre`.
    pub open spec fn unchanged_from(self, pre: Repute) -> bool {
        &&& self.epoch == pre.epoch
        &&& self.table() == pre.table()
        &&& self.ledger() == pre.ledger()
    }

    /// A fresh engine: one recorded era starting at `now` with the given
    /// multiplier, an empty ledger.
    pub fn new(multiplier: GlobalEpochMultiplier, now: GlobalEpoch) -> (r: Self)
        requires
            multiplier >= 1,
        ensures
            r.wf(),
            r.epoch == now,
            r.table() == seq![(now, multiplier)],
            r.ledger() == Map::<AccountId, UserRecord>::empty(),
    {
        let mut table = EraTable::new();
        let _ = table.insert(now, multiplier);
        proof {
            assert(table@ =~= seq![(now, multiplier)]);
        }
        Repute { epoch: now, epoch_reputation_multiplier: table, user_identifiers: UserLedger::new() }
    }

    /// A fresh engine with the lowest multiplier. The floor is one, not zero:
    /// a zero multiplier would nullify every score ever awarded, and the era
    /// table keeps multipliers at least one.
    pub fn default(now: GlobalEpoch) -> (r: Self)
        ensures
            r.wf(),
            r.epoch == now,
            r.table() == seq![(now, 1u32)],
            r.ledger() == Map::<AccountId, UserRecord>::empty(),
    {
        Self::new(1, now)
    }

    /// Registers `caller` at tick `now`: creates its ledger entry with no
    /// score, the active era as its synced epoch, and the lowest rank.
    /// Fails, changing nothing, when the account is already registered.
    pub fn register(&mut self, caller: AccountId, now: GlobalEpoch) -> (r: Result<
        UserRegistered,
        Error,
    >)
        requires
            old(self).wf(),
        ensures
            final(self).wf(),
            final(self).epoch == old(self).epoch,
            final(self).table() == old(self).table(),
            old(self).spec_registered(caller) ==> {
                &&& r == Err::<UserRegistered, Error>(Error::AlreadyRegistered)
                &&& final(self).unchanged_from(*old(self))
            },
            !old(self).spec_registered(caller) ==> {
                &&& r == Ok::<UserRegistered, Error>(
                    (UserRegistered { user: caller, epoch: old(self).epoch }),
                )
                &&& final(self).ledger() == old(self).ledger().insert(
                    caller,
                    (UserRecord {
                        registered_at: now,
                        score: 0,
                        last_synced_epoch: old(self).epoch,
                        rank: Rank::Rookie,
                    }),
                )
            },
    {
        if self.user_identifiers.contains(caller) {
            return Err(Error::AlreadyRegistered);
        }
        let user_epoch = self.epoch;
        let record = UserRecord {
            registered_at: now,
            score: 0,
            last_synced_epoch: user_epoch,
            rank: Rank::Rookie,
        };
        self.user_identifiers.insert(caller, record);
        Ok(UserRegistered { user: caller, epoch: user_epoch })
    }

    /// The reconciled snapshot of `user_id`: score, last-synced epoch and
    /// rank. Read-only; fails when the account is not registered.
    pub fn get_user_reputation(&self, user_id: AccountId) -> (r: Result<
        (ReputationScore, UserReputationEpoch, Rank),
        Error,
    >)
        ensures
            self.spec_registered(user_id) ==> r == Ok::<
                (ReputationScore, UserReputationEpoch, Rank),
                Error,
            >(
                (
                    self.ledger()[user_id].score,
                    self.ledger()[user_id].last_synced_epoch,
                    self.ledger()[user_id].rank,
                ),
            ),
            !self.spec_registered(user_id) ==> r == Err::<
                (ReputationScore, UserReputationEpoch, Rank),
                Error,
            >(Error::NotRegistered),
    {
        match self.user_identifiers.get(user_id) {
            Some(record) => Ok((record.score, record.last_synced_epoch, record.rank)),
            None => Err(Error::NotRegistered),
        }
    }

    /// The raw reconciliation score for an account last synced at `user_epoch`
    /// against the era that started at `epoch_era`, with the notification that
    /// records the computation. A pure stand-in for a richer activity oracle.
    pub fn calculate_reputation_score(
        user_epoch: UserReputationEpoch,
        epoch_era: GlobalEpochEra,
    ) -> (r: Result<(ReputationScore, ScoreCalculated), Error>)
        ensures
            epoch_era == 0 ==> r == Err::<(ReputationScore, ScoreCalculated), Error>(
                Error::DivisionByZero,
            ),
            epoch_era != 0 && user_epoch * 100 > u32::MAX ==> r == Err::<
                (ReputationScore, ScoreCalculated),
                Error,
            >(Error::ArithmeticOverflow),
            epoch_era != 0 && user_epoch * 100 <= u32::MAX ==> {
                &&& r == Ok::<(ReputationScore, ScoreCalculated), Error>(
                    (
                        raw_score(user_epoch as int, epoch_era as int) as u128,
                        (ScoreCalculated { user_epoch, epoch_era }),
                    ),
                )
                &&& 0 <= raw_score(user_epoch as int, epoch_era as int) <= u32::MAX
            },
    {
        if epoch_era == 0 {
            return Err(Error::DivisionByZero);
        }
        if user_epoch > u32::MAX / 100 {
            return Err(Error::ArithmeticOverflow);
        }
        let product: u32 = user_epoch * 100;
        let score: u32 = product / epoch_era;
        Ok((score as u128, ScoreCalculated { user_epoch, epoch_era }))
    }

    /// Rolls the era over when strictly more than one era duration has passed
    /// since the active era began: the new era starts at `now` and its
    /// multiplier is the old one compounded by one percent (truncated).
    /// At exactly one era duration nothing happens. Fails, changing nothing,
    /// when `now` lies before the active era or the compounded multiplier
    /// would overflow.
    pub fn update_era(&mut self, now: GlobalEpoch) -> (r: Result<
        Option<EraAndMultiplierUpdated>,
        Error,
    >)
        requires
            old(self).wf(),
        ensures
            final(self).wf(),
            final(self).ledger() == old(self).ledger(),
            final(self).epoch >= old(self).epoch,
            old(self).table().is_prefix_of(final(self).table()),
            ({
                let pre = *old(self);
                let post = *final(self);
                let m = pre.current_multiplier();
                if now < pre.epoch {
                    r == Err::<Option<EraAndMultiplierUpdated>, Error>(Error::ClockRegression)
                        && post.unchanged_from(pre)
                } else if !era_rollover_due(pre.epoch as int, now as int) {
                    r == Ok::<Option<EraAndMultiplierUpdated>, Error>(
                        None::<EraAndMultiplierUpdated>,
                    ) && post.unchanged_from(pre)
                } else if compounded(m as int) > u32::MAX {
                    r == Err::<Option<EraAndMultiplierUpdated>, Error>(Error::ArithmeticOverflow)
                        && post.unchanged_from(pre)
                } else {
                    &&& post.epoch == now
                    &&& post.table() == pre.table().push((now, compounded(m as int) as u32))
                    &&& r == Ok::<Option<EraAndMultiplierUpdated>, Error>(
                        Some(
                            (EraAndMultiplierUpdated {
                                new_epoch: now,
                                new_multiplier: compounded(m as int) as u32,
                            }),
                        ),
                    )
                }
            }),
    {
        let current_era = self.epoch;
        let (_, current_multiplier) = self.epoch_reputation_multiplier.newest();
        if now < current_era {
            return Err(Error::ClockRegression);
        }
        if now - current_era > ERA_DURATION_TICKS {
            let growth = current_multiplier / 100;
            if current_multiplier > u32::MAX - growth {
                return Err(Error::ArithmeticOverflow);
            }
            let new_multiplier = current_multiplier + growth;
            let inserted = self.epoch_reputation_multiplier.insert(now, new_multiplier);
            match inserted {
                Ok(()) => {},
                Err(_) => {
                    // never reached: `now` lies strictly beyond the newest
                    // recorded era start
                    proof {
                        assert(false);
                    }
                    return Err(Error::EraKeyCollision);
                },
            }
            self.epoch = now;
            Ok(Some(EraAndMultiplierUpdated { new_epoch: now, new_multiplier }))
        } else {
            Ok(None)
        }
    }

    /// Reconciles `caller`'s reputation against the active era at tick `now`.
    ///
    /// Already-reconciled accounts get a no-op with nothing to emit. Otherwise
    /// the account's rank is promoted by tenure (never demoted), the raw score
    /// of its stale epoch against the active era is scaled by the era's
    /// multiplier and accumulated into its stored score — reputation is
    /// cumulative — the snapshot is synced to the active era, and the era
    /// itself rolls over when it has outlived its duration. Every failure
    /// leaves the whole state untouched.
    pub fn update_reputation(&mut self, caller: AccountId, now: GlobalEpoch) -> (r: Result<
        Option<ReputationUpdate>,
        Error,
    >)
        requires
            old(self).wf(),
        ensures
            final(self).wf(),
            final(self).epoch >= old(self).epoch,
            old(self).table().is_prefix_of(final(self).table()),
            forall|a: AccountId| #[trigger] old(self).ledger().contains_key(a) ==> {
                &&& final(self).ledger().contains_key(a)
                &&& final(self).ledger()[a].registered_at == old(self).ledger()[a].registered_at
                &&& final(self).ledger()[a].score >= old(self).ledger()[a].score
                &&& rank_value(final(self).ledger()[a].rank) >= rank_value(
                    old(self).ledger()[a].rank,
                )
                &&& (a != caller ==> final(self).ledger()[a] == old(self).ledger()[a])
            },
            ({
                let pre = *old(self);
                let post = *final(self);
                if !pre.spec_registered(caller) {
                    r == Err::<Option<ReputationUpdate>, Error>(Error::NotRegistered)
                        && post.unchanged_from(pre)
                } else if pre.spec_synced(caller) {
                    r == Ok::<Option<ReputationUpdate>, Error>(None::<ReputationUpdate>)
                        && post.unchanged_from(pre)
                } else {
                    let entry = pre.ledger()[caller];
                    let m = pre.current_multiplier();
                    let scaled = raw_score(entry.last_synced_epoch as int, pre.epoch as int) * m;
                    if now < entry.registered_at {
                        r == Err::<Option<ReputationUpdate>, Error>(Error::ClockRegression)
                            && post.unchanged_from(pre)
                    } else if entry.last_synced_epoch * 100 > u32::MAX {
                        r == Err::<Option<ReputationUpdate>, Error>(Error::ArithmeticOverflow)
                            && post.unchanged_from(pre)
                    } else if entry.score + scaled > u128::MAX {
                        r == Err::<Option<ReputationUpdate>, Error>(Error::ArithmeticOverflow)
                            && post.unchanged_from(pre)
                    } else if now < pre.epoch {
                        r == Err::<Option<ReputationUpdate>, Error>(Error::ClockRegression)
                            && post.unchanged_from(pre)
                    } else if era_rollover_due(pre.epoch as int, now as int) && compounded(m as int)
                        > u32::MAX {
                        r == Err::<Option<ReputationUpdate>, Error>(Error::ArithmeticOverflow)
                            && post.unchanged_from(pre)
                    } else {
                        let rollover = era_rollover_due(pre.epoch as int, now as int);
                        let new_record = (UserRecord {
                            registered_at: entry.registered_at,
                            score: (entry.score + scaled) as u128,
                            last_synced_epoch: pre.epoch,
                            rank: max_rank(
                                entry.rank,
                                rank_for_tenure(now - entry.registered_at),
                            ),
                        });
                        &&& post.ledger() == pre.ledger().insert(caller, new_record)
                        &&& post.epoch == (if rollover {
                            now
                        } else {
                            pre.epoch
                        })
                        &&& post.table() == (if rollover {
                            pre.table().push((now, compounded(m as int) as u32))
                        } else {
                            pre.table()
                        })
                        &&& r == Ok::<Option<ReputationUpdate>, Error>(
                            Some(
                                (ReputationUpdate {
                                    score_calculated: (ScoreCalculated {
                                        user_epoch: entry.last_synced_epoch,
                                        epoch_era: pre.epoch,
                                    }),
                                    era_update: (if rollover {
                                        Some(
                                            (EraAndMultiplierUpdated {
                                                new_epoch: now,
                                                new_multiplier: compounded(m as int) as u32,
                                            }),
                                        )
                                    } else {
                                        None::<EraAndMultiplierUpdated>
                                    }),
                                    score_generated: (ScoreGenerated {
                                        user: caller,
                                        user_epoch: pre.epoch,
                                        epoch_era: post.epoch,
                                    }),
                                }),
                            ),
                        )
                    }
                }
            }),
    {
        let entry = match self.user_identifiers.get(caller) {
            Some(e) => e,
            None => {
                return Err(Error::NotRegistered);
            },
        };
        if entry.last_synced_epoch == self.epoch {
            return Ok(None);
        }
        if now < entry.registered_at {
            return Err(Error::ClockRegression);
        }
        let tenure = now - entry.registered_at;
        let new_rank = promote(entry.rank, tenure);
        proof {
            // no account is synced beyond the active era, and this one is not
            // synced to it, so the era's start tick is nonzero
            assert(self.ledger().contains_key(caller));
            assert(entry.last_synced_epoch < self.epoch);
        }
        let (raw, score_calculated) = match Self::calculate_reputation_score(
            entry.last_synced_epoch,
            self.epoch,
        ) {
            Ok(v) => v,
            Err(e) => {
                return Err(e);
            },
        };
        let (_, multiplier) = self.epoch_reputation_multiplier.newest();
        proof {
            assert((raw as int) * (multiplier as int) <= 0xffff_ffff * 0xffff_ffff)
                by (nonlinear_arith)
                requires
                    0 <= raw as int <= 0xffff_ffff,
                    0 <= multiplier as int <= 0xffff_ffff,
            ;
        }
        let scaled: u128 = raw * (multiplier as u128);
        if scaled > u128::MAX - entry.score {
            return Err(Error::ArithmeticOverflow);
        }
        let new_score = entry.score + scaled;
        // the era rollover's own failure conditions are checked before any
        // write, so a failure leaves no partial state behind
        if now < self.epoch {
            return Err(Error::ClockRegression);
        }
        if now - self.epoch > ERA_DURATION_TICKS {
            let growth = multiplier / 100;
            if multiplier > u32::MAX - growth {
                return Err(Error::ArithmeticOverflow);
            }
        }
        let user_epoch = self.epoch;
        self.user_identifiers.insert(
            caller,
            UserRecord {
                registered_at: entry.registered_at,
                score: new_score,
                last_synced_epoch: user_epoch,
                rank: new_rank,
            },
        );
        let era_update = match self.update_era(now) {
            Ok(u) => u,
            Err(_) => {
                // never reached: the rollover's failure conditions were ruled
                // out before the snapshot was written
                proof {
                    assert(false);
                }
                return Err(Error::ArithmeticOverflow);
            },
        };
        Ok(
            Some(
                ReputationUpdate {
                    score_calculated,
                    era_update,
                    score_generated: ScoreGenerated { user: caller, user_epoch, epoch_era: self.epoch },
                },
            ),
        )
    }
}

/// Law: registration is exactly once. No operation removes a ledger entry —
/// the only writes are inserts — so an account once registered stays
/// registered, and by `register`'s contract a later `register` call for it
/// always fails with `AlreadyRegistered`, however much time has passed.
pub proof fn lemma_registration_is_permanent(
    ledger: Map<AccountId, UserRecord>,
    registered: AccountId,
    written: AccountId,
    record: UserRecord,
)
    requires
        ledger.contains_key(registered),
    ensures
        ledger.insert(written, record).contains_key(registered),
{
}

/// Law: reconciliation is idempotent at a fixed tick. A successful
/// reconciliation that does not roll the era over writes a record synced to
/// the still-active era, so the caller is synced afterwards and a second
/// `update_reputation` at the same tick is a no-op that leaves score,
/// last-synced epoch and rank unchanged (see the synced case of its
/// contract). When the first call does roll the era over, the caller is
/// stale against the new era and a second call accumulates again; idempotence
/// holds only below the rollover bound.
pub proof fn lemma_reconciliation_idempotent(
    pre: Repute,
    post: Repute,
    caller: AccountId,
    record: UserRecord,
)
    requires
        post.epoch == pre.epoch,
        record.last_synced_epoch == pre.epoch,
        post.ledger() == pre.ledger().insert(caller, record),
    ensures
        post.spec_synced(caller),
{
}

} // verus!
