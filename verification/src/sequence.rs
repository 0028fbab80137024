//! Storage progress that a handle sees.
use vstd::prelude::*;

verus! {

/// Monotonic storage sequence visible to one writer or reader handle.
///
/// Sequence lag is measured in committed storage progress rather than elapsed
/// wall-clock time.
#[derive(Debug, Clone, Copy, PartialEq, Eq, PartialOrd, Ord, Hash, Structural)]
pub struct DatabaseSequence(u64);

impl DatabaseSequence {
    /// The underlying number.
    pub closed spec fn value(self) -> u64 {
        self.0
    }

    /// Returns the empty-database sequence.
    pub fn initial() -> (sequence: Self)
        ensures
            sequence.value() == 0,
    {
        DatabaseSequence(0)
    }

    /// Wraps a storage sequence captured by an external adapter or trace.
    pub fn new(value: u64) -> (sequence: Self)
        ensures
            sequence.value() == value,
    {
        DatabaseSequence(value)
    }

    /// Returns the underlying monotonic storage sequence.
    pub fn get(self) -> (value: u64)
        ensures
            value == self.value(),
    {
        self.0
    }

    /// Returns commit lag from this visible sequence to a newer writer sequence.
    pub fn lag_to(self, writer: Self) -> (lag: u64)
        ensures
            lag == lag_between(self.value(), writer.value()),
    {
        if writer.0 > self.0 {
            writer.0 - self.0
        } else {
            0
        }
    }
}

impl Default for DatabaseSequence {
    fn default() -> (sequence: Self)
        ensures
            sequence.value() == 0,
    {
        DatabaseSequence(0)
    }
}

/// How far one sequence lies behind another; none that lies ahead is behind.
pub open spec fn lag_between(visible: u64, writer: u64) -> int {
    if writer > visible {
        writer - visible
    } else {
        0
    }
}

/// Of two sequences at most one lies behind the other, and both lags are zero exactly
/// where the sequences are the same.
pub proof fn law_lag_is_one_sided(left: u64, right: u64)
    ensures
        lag_between(left, right) == 0 || lag_between(right, left) == 0,
        lag_between(left, right) == 0 && lag_between(right, left) == 0 <==> left == right,
{
}

/// A handle that lies behind the writer catches up by exactly its lag, and one that does not
/// has none.
pub proof fn law_lag_is_what_is_missing(visible: u64, writer: u64)
    ensures
        writer >= visible ==> visible + lag_between(visible, writer) == writer,
        writer <= visible ==> lag_between(visible, writer) == 0,
{
}

} // verus!
