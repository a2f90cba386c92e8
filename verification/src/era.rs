//! The era table: an append-only record of eras and their multipliers.
//!
//! Each entry maps the tick at which an era started to the multiplier that
//! scales reputation awarded during that era. Era start ticks strictly
//! increase, multipliers never decrease and stay at least one, and an entry,
//! once recorded, is never altered: the table only ever grows at the end.

use vstd::prelude::*;

use crate::errors::Error;

verus! {

/// Tick at which an era starts; eras are identified by their start tick.
pub type GlobalEpochEra = u32;

/// Factor by which raw reputation scores of an era are scaled.
pub type GlobalEpochMultiplier = u32;

/// Append-only record of `(era start tick, multiplier)` pairs, oldest first.
pub struct EraTable {
    pub entries: Vec<(GlobalEpochEra, GlobalEpochMultiplier)>,
}

impl View for EraTable {
    type V = Seq<(GlobalEpochEra, GlobalEpochMultiplier)>;

    open spec fn view(&self) -> Seq<(GlobalEpochEra, GlobalEpochMultiplier)> {
        self.entries@
    }
}

impl EraTable {
    /// Well-formedness: era start ticks strictly increase, multipliers are
    /// non-decreasing in era order and never below one.
    pub open spec fn wf(self) -> bool {
        &&& forall|i: int, j: int|
            0 <= i < j < self@.len() ==> self@[i].0 < self@[j].0
        &&& forall|i: int, j: int|
            0 <= i <= j < self@.len() ==> self@[i].1 <= self@[j].1
        &&& forall|i: int| 0 <= i < self@.len() ==> self@[i].1 >= 1
    }

    /// An empty table.
    pub fn new() -> (r: Self)
        ensures
            r.wf(),
            r@ == Seq::<(GlobalEpochEra, GlobalEpochMultiplier)>::empty(),
    {
        EraTable { entries: Vec::new() }
    }

    /// The multiplier recorded for the era that starts at `tick`, if any.
    pub fn get_multiplier(&self, tick: GlobalEpochEra) -> (r: Option<GlobalEpochMultiplier>)
        ensures
            match r {
                Some(m) => exists|i: int| 0 <= i < self@.len() && self@[i] == (tick, m),
                None => forall|i: int| 0 <= i < self@.len() ==> self@[i].0 != tick,
            },
    {
        let mut i: usize = 0;
        while i < self.entries.len()
            invariant
                0 <= i <= self.entries.len(),
                forall|k: int| 0 <= k < i ==> self@[k].0 != tick,
            decreases self.entries.len() - i,
        {
            if self.entries[i].0 == tick {
                let m = self.entries[i].1;
                proof {
                    assert(self@[i as int] == (tick, m));
                }
                return Some(m);
            }
            i = i + 1;
        }
        None
    }

    /// The newest recorded entry: the current era and its multiplier.
    pub fn newest(&self) -> (r: (GlobalEpochEra, GlobalEpochMultiplier))
        requires
            self@.len() > 0,
        ensures
            r == self@.last(),
    {
        self.entries[self.entries.len() - 1]
    }

    /// Records a new era. The table is append-only and ordered by era start,
    /// so a tick that does not lie beyond the newest recorded era collides
    /// with already-recorded history and is rejected; in particular a tick
    /// already present is rejected, which keeps recorded entries immutable.
    pub fn insert(&mut self, tick: GlobalEpochEra, multiplier: GlobalEpochMultiplier) -> (r: Result<
        (),
        Error,
    >)
        requires
            old(self).wf(),
            multiplier >= 1,
            old(self)@.len() > 0 ==> multiplier >= old(self)@.last().1,
        ensures
            final(self).wf(),
            old(self)@.len() == 0 || tick > old(self)@.last().0 ==> {
                &&& r == Ok::<(), Error>(())
                &&& final(self)@ == old(self)@.push((tick, multiplier))
            },
            !(old(self)@.len() == 0 || tick > old(self)@.last().0) ==> {
                &&& r == Err::<(), Error>(Error::EraKeyCollision)
                &&& final(self)@ == old(self)@
            },
            old(self)@.is_prefix_of(final(self)@),
    {
        if self.entries.len() > 0 {
            let last = self.entries[self.entries.len() - 1];
            if tick <= last.0 {
                return Err(Error::EraKeyCollision);
            }
        }
        self.entries.push((tick, multiplier));
        Ok(())
    }
}

/// Law: the multipliers recorded in the era table, ordered by era start tick
/// (which is the order they stand in), are non-decreasing.
pub proof fn lemma_multiplier_monotone(t: EraTable, i: int, j: int)
    requires
        t.wf(),
        0 <= i <= j < t@.len(),
    ensures
        t@[i].1 <= t@[j].1,
{
}

/// Law: recorded eras are immutable. Every operation on the table either
/// leaves it unchanged or appends one entry, so a pair once recorded at a
/// position is still there afterwards.
pub proof fn lemma_era_records_immutable(
    pre: Seq<(GlobalEpochEra, GlobalEpochMultiplier)>,
    post: Seq<(GlobalEpochEra, GlobalEpochMultiplier)>,
    i: int,
)
    requires
        pre.is_prefix_of(post),
        0 <= i < pre.len(),
    ensures
        post[i] == pre[i],
{
}

} // verus!
