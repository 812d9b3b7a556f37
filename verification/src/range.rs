//! The range of playing times that is kept.

use vstd::prelude::*;

verus! {

/// An inclusive range of playing times in milliseconds.
///
/// Nothing asks that `min_length <= max_length`: a range whose bounds are
/// the wrong way round admits no time at all.
#[derive(Clone, Copy, Debug, PartialEq, Eq, Structural)]
pub struct LengthRange {
    pub min_length: u64,
    pub max_length: u64,
}

impl LengthRange {
    /// Whether a playing time lies in the range, both bounds counted in.
    pub open spec fn admits(self, ms: int) -> bool {
        self.min_length <= ms && ms <= self.max_length
    }

    /// The range from `min_length` to `max_length`, both counted in.
    pub fn new(min_length: u64, max_length: u64) -> (range: LengthRange)
        ensures
            range.min_length == min_length,
            range.max_length == max_length,
    {
        LengthRange { min_length, max_length }
    }

    /// The range that admits every playing time: from 0 with no upper limit.
    pub fn unbounded() -> (range: LengthRange)
        ensures
            range.min_length == 0,
            range.max_length == u64::MAX,
            forall|ms: u64| range.admits(ms as int),
    {
        LengthRange { min_length: 0, max_length: u64::MAX }
    }

    /// Tests a playing time against the range.
    pub fn contains(&self, ms: u64) -> (kept: bool)
        ensures
            kept == self.admits(ms as int),
    {
        self.min_length <= ms && ms <= self.max_length
    }
}

impl Default for LengthRange {
    fn default() -> (range: LengthRange)
        ensures
            range.min_length == 0,
            range.max_length == u64::MAX,
    {
        LengthRange::unbounded()
    }
}

/// Both bounds belong to the range: a time of exactly `min_length` or exactly
/// `max_length` is admitted, whenever the range admits anything.
pub proof fn lemma_bounds_are_admitted(range: LengthRange)
    requires
        range.min_length <= range.max_length,
    ensures
        range.admits(range.min_length as int),
        range.admits(range.max_length as int),
{
}

/// A range with `min_length > max_length` admits nothing.
pub proof fn lemma_inverted_range_is_empty(range: LengthRange, ms: int)
    requires
        range.min_length > range.max_length,
    ensures
        !range.admits(ms),
{
}

} // verus!
