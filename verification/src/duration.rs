//! Playing time of an uncompressed PCM container, from its header alone.

use vstd::prelude::*;

verus! {

/// What the header of a container declares about its length: how many
/// samples are played per second, and how many samples the data chunk holds
/// in all.
#[derive(Clone, Copy, Debug, PartialEq, Eq, Structural)]
pub struct WavHeader {
    pub sample_rate: u32,
    pub sample_count: u32,
}

/// The playing time in whole milliseconds: `sample_count / sample_rate`
/// seconds, times 1000, rounded down.
///
/// A rate of zero gives no finite time. Samples that are never played out
/// last for ever, which is reported as the largest value; no samples at all
/// last 0 ms.
pub open spec fn duration_millis(sample_count: nat, sample_rate: nat) -> nat {
    if sample_rate == 0 {
        if sample_count == 0 {
            0
        } else {
            u64::MAX as nat
        }
    } else {
        sample_count * 1000 / sample_rate
    }
}

impl WavHeader {
    /// The playing time that this header declares.
    pub open spec fn millis(self) -> nat {
        duration_millis(self.sample_count as nat, self.sample_rate as nat)
    }

    /// The header that declares this rate and this number of samples.
    pub fn new(sample_rate: u32, sample_count: u32) -> (header: WavHeader)
        ensures
            header.sample_rate == sample_rate,
            header.sample_count == sample_count,
    {
        WavHeader { sample_rate, sample_count }
    }

    /// Computes the playing time in milliseconds, truncated toward zero.
    pub fn duration_ms(&self) -> (ms: u64)
        ensures
            ms == self.millis(),
    {
        if self.sample_rate == 0 {
            if self.sample_count == 0 {
                0
            } else {
                u64::MAX
            }
        } else {
            let scaled: u64 = (self.sample_count as u64) * 1000;
            scaled / (self.sample_rate as u64)
        }
    }
}

/// With a positive rate the playing time is the floor of
/// `sample_count * 1000 / sample_rate`: the one whole number `d` with
/// `d * sample_rate <= sample_count * 1000 < (d + 1) * sample_rate`.
pub proof fn lemma_duration_is_floor(sample_count: nat, sample_rate: nat)
    requires
        sample_rate > 0,
    ensures
        duration_millis(sample_count, sample_rate) * sample_rate <= sample_count * 1000,
        sample_count * 1000 < (duration_millis(sample_count, sample_rate) + 1) * sample_rate,
{
    let n = (sample_count * 1000) as int;
    let r = sample_rate as int;
    vstd::arithmetic::div_mod::lemma_fundamental_div_mod(n, r);
    vstd::arithmetic::div_mod::lemma_mod_bound(n, r);
    assert(r * (n / r) == (n / r) * r) by (nonlinear_arith);
    assert((n / r + 1) * r == (n / r) * r + r) by (nonlinear_arith);
}

/// The floor is unique: a whole number `d` that brackets the exact time is
/// the playing time.
pub proof fn lemma_floor_is_duration(sample_count: nat, sample_rate: nat, d: nat)
    requires
        sample_rate > 0,
        d * sample_rate <= sample_count * 1000,
        sample_count * 1000 < (d + 1) * sample_rate,
    ensures
        duration_millis(sample_count, sample_rate) == d,
{
    let n = (sample_count * 1000) as int;
    let r = sample_rate as int;
    let q = n / r;
    lemma_duration_is_floor(sample_count, sample_rate);
    assert(q == d) by (nonlinear_arith)
        requires
            r > 0,
            q >= 0,
            d >= 0,
            q * r <= n,
            n < (q + 1) * r,
            d * r <= n,
            n < (d + 1) * r,
    ;
}

} // verus!
