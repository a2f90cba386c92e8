//! The ways an engine operation can fail.
//!
//! Every failure aborts the whole operation with no state change: callers
//! observe either the full effect of an operation or none of it.

use vstd::prelude::*;

verus! {

/// Terminal failure of a single engine operation.
#[derive(Debug, Clone, Copy, PartialEq, Eq)]
pub enum Error {
    /// `register` was called for an account that already has a ledger entry.
    AlreadyRegistered,
    /// The operation needs a ledger entry that does not exist.
    NotRegistered,
    /// A checked computation would exceed its numeric range.
    ArithmeticOverflow,
    /// A score would be computed against an era start tick of zero.
    DivisionByZero,
    /// The supplied tick lies before a tick the state already depends on.
    ClockRegression,
    /// A new era entry would not lie beyond the recorded history.
    EraKeyCollision,
}

} // verus!
