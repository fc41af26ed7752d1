//! Classification-accuracy metrics: how often each sampling strategy
//! agrees with a randomly placed reference sample.
//!
//! The caller classifies, for each trial, one random reference point and
//! the corresponding sample points of the default, 2x2, 3x3 and 4x4
//! strategies, and records the outcomes here; the agreement ratio of a
//! strategy is its counter over `samples`, a fraction in [0, 1].

use vstd::prelude::*;

verus! {

/// Agreement counts of the four sampling strategies against the
/// reference classification, over `samples` recorded trials.
#[derive(Clone, Copy, Debug, PartialEq, Eq, Structural)]
pub struct Metrics {
    /// Trials where default (pixel-center) sampling agreed.
    pub none: u32,
    /// Trials where 2x2 supersampling agreed.
    pub two_by_two: u32,
    /// Trials where 3x3 supersampling agreed.
    pub three_by_three: u32,
    /// Trials where 4x4 supersampling agreed.
    pub four_by_four: u32,
    /// Number of recorded trials.
    pub samples: u32,
}

impl Metrics {
    /// Every agreement count is at most the number of trials, so each
    /// agreement ratio lies in [0, 1].
    pub open spec fn wf(self) -> bool {
        &&& self.none <= self.samples
        &&& self.two_by_two <= self.samples
        &&& self.three_by_three <= self.samples
        &&& self.four_by_four <= self.samples
    }

    /// No trials recorded yet.
    pub fn new() -> (r: Metrics)
        ensures
            r.wf(),
            r.samples == 0,
            r.none == 0,
            r.two_by_two == 0,
            r.three_by_three == 0,
            r.four_by_four == 0,
    {
        Metrics { none: 0, two_by_two: 0, three_by_three: 0, four_by_four: 0, samples: 0 }
    }

    /// Records one trial: each strategy's counter grows by one exactly
    /// when its classification matches the reference classification.
    pub fn record_trial(
        &mut self,
        reference: bool,
        sample_none: bool,
        sample_2x2: bool,
        sample_3x3: bool,
        sample_4x4: bool,
    )
        requires
            old(self).wf(),
            old(self).samples < 0xffff_ffff,
        ensures
            final(self).wf(),
            final(self).samples == old(self).samples + 1,
            final(self).none == old(self).none + (if sample_none == reference { 1int } else { 0 }),
            final(self).two_by_two == old(self).two_by_two + (if sample_2x2 == reference { 1int } else { 0 }),
            final(self).three_by_three == old(self).three_by_three + (if sample_3x3 == reference { 1int } else { 0 }),
            final(self).four_by_four == old(self).four_by_four + (if sample_4x4 == reference { 1int } else { 0 }),
    {
        self.samples = self.samples + 1;
        if sample_none == reference {
            self.none = self.none + 1;
        }
        if sample_2x2 == reference {
            self.two_by_two = self.two_by_two + 1;
        }
        if sample_3x3 == reference {
            self.three_by_three = self.three_by_three + 1;
        }
        if sample_4x4 == reference {
            self.four_by_four = self.four_by_four + 1;
        }
    }
}

/// The center of the sub-pixel bucket that a random in-pixel offset falls
/// into, for `n` by `n` supersampling: the offset `(x_off / den, y_off /
/// den)` in `[0, 1) x [0, 1)` lands in bucket `floor(off * n)`, whose
/// center is `(bucket / n) + 1 / (2n)`, returned as numerators over the
/// common denominator `2n`. Both results lie strictly inside `(0, 1)`.
pub fn get_subpixel(x_offset_num: i64, y_offset_num: i64, den: i64, n: i64) -> (r: (i64, i64, i64))
    requires
        1 <= den <= 1048576,
        0 <= x_offset_num < den,
        0 <= y_offset_num < den,
        1 <= n <= 16,
    ensures
        r.0 == 2 * ((x_offset_num * n) / (den as int)) + 1,
        r.1 == 2 * ((y_offset_num * n) / (den as int)) + 1,
        r.2 == 2 * n,
        0 < r.0 < r.2,
        0 < r.1 < r.2,
{
    proof {
        lemma_bucket(x_offset_num as int, den as int, n as int);
        lemma_bucket(y_offset_num as int, den as int, n as int);
    }
    let x_bucket: i64 = (x_offset_num * n) / den;
    let y_bucket: i64 = (y_offset_num * n) / den;
    (2 * x_bucket + 1, 2 * y_bucket + 1, 2 * n)
}

/// An offset strictly below 1 lands in a bucket index below `n`.
proof fn lemma_bucket(off: int, den: int, n: int)
    requires
        1 <= den <= 1048576,
        0 <= off < den,
        1 <= n <= 16,
    ensures
        0 <= off * n <= 0x1_0000_0000,
        0 <= (off * n) / den && (off * n) / den < n,
{
    assert(0 <= off * n <= 0x1_0000_0000 && off * n <= den * n - 1) by (nonlinear_arith)
        requires
            1 <= den <= 1048576,
            0 <= off < den,
            1 <= n <= 16,
    ;
    let q = (off * n) / den;
    vstd::arithmetic::div_mod::lemma_fundamental_div_mod(off * n, den);
    vstd::arithmetic::div_mod::lemma_mod_bound(off * n, den);
    assert(0 <= q && q < n) by (nonlinear_arith)
        requires
            off * n == den * q + (off * n) % den,
            0 <= (off * n) % den < den,
            0 <= off * n,
            off * n <= den * n - 1,
            1 <= den,
            1 <= n,
    ;
}

} // verus!
