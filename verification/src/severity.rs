//! Severity levels and the integer codes that stand for them at the native
//! boundary.

use vstd::prelude::*;

verus! {

/// How urgent a log record is. `Error` is the most urgent level, `Trace` the
/// least.
#[derive(Clone, Copy, Debug, PartialEq, Eq, Hash, Structural)]
pub enum Severity {
    Error,
    Warn,
    Info,
    Debug,
    Trace,
}

impl Severity {
    /// The level that a severity code stands for: `0` to `3` are `Error`,
    /// `Warn`, `Info` and `Debug`; every other code, negative ones included,
    /// is `Trace`.
    pub open spec fn of_code(code: int) -> Severity {
        if code == 0 {
            Severity::Error
        } else if code == 1 {
            Severity::Warn
        } else if code == 2 {
            Severity::Info
        } else if code == 3 {
            Severity::Debug
        } else {
            Severity::Trace
        }
    }

    /// Position in the order of urgency: `0` for the most urgent level.
    pub open spec fn rank(self) -> nat {
        match self {
            Severity::Error => 0,
            Severity::Warn => 1,
            Severity::Info => 2,
            Severity::Debug => 3,
            Severity::Trace => 4,
        }
    }

    /// Maps a severity code to its level. Never fails: a code without a level
    /// of its own is logged as `Trace` rather than rejected.
    pub fn from_code(code: i32) -> (level: Severity)
        ensures
            level == Severity::of_code(code as int),
    {
        match code {
            0 => Severity::Error,
            1 => Severity::Warn,
            2 => Severity::Info,
            3 => Severity::Debug,
            _ => Severity::Trace,
        }
    }

    /// Position of this level in the order of urgency, `0` for `Error` up to
    /// `4` for `Trace`.
    pub fn urgency(self) -> (rank: u8)
        ensures
            rank == self.rank(),
    {
        match self {
            Severity::Error => 0,
            Severity::Warn => 1,
            Severity::Info => 2,
            Severity::Debug => 3,
            Severity::Trace => 4,
        }
    }
}

/// Among the non-negative codes the mapping is monotonic: a larger code never
/// stands for a more urgent level.
pub proof fn lemma_of_code_monotonic(low: int, high: int)
    requires
        0 <= low <= high,
    ensures
        Severity::of_code(low).rank() <= Severity::of_code(high).rank(),
{
}

/// The codes `0` to `3` stand for four different levels, and their rank is
/// the code itself.
pub proof fn lemma_of_code_one_to_one(a: int, b: int)
    requires
        0 <= a <= 3,
        0 <= b <= 3,
    ensures
        Severity::of_code(a).rank() == a,
        Severity::of_code(a) == Severity::of_code(b) ==> a == b,
{
}

/// The ranks order the levels: no two levels share a rank, and `Error` comes
/// first.
pub proof fn lemma_rank_orders_levels(a: Severity, b: Severity)
    ensures
        a.rank() == b.rank() ==> a == b,
        Severity::Error.rank() <= a.rank() <= Severity::Trace.rank(),
{
}

/// Every code from `4` upwards, and every negative code, stands for `Trace`.
pub proof fn lemma_of_code_fallback(code: int)
    requires
        code < 0 || code >= 4,
    ensures
        Severity::of_code(code) == Severity::Trace,
{
}

} // verus!
