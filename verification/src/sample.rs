//! Sources of randomness and drawing from weighted categories.
//!
//! Every stochastic operation of this crate takes an explicit
//! [`RandomSource`], so a run can be made reproducible by seeding.  Two
//! sources are provided: [`ThreadRandom`], backed by the thread-local
//! generator, and [`SeededRandom`], a deterministic seeded generator.

use vstd::prelude::*;

verus! {

/// A source of uniform draws, fair coins, and positive path lengths.
///
/// The contracts state only what holds of every outcome; the distribution
/// itself is a property of the implementation.
pub trait RandomSource {
    /// Draws an integer uniformly from the half-open range `lo..hi`.
    fn uniform(&mut self, lo: i64, hi: i64) -> (r: i64)
        requires
            lo < hi,
        ensures
            lo <= r < hi,
    ;

    /// Draws a fair coin.
    fn coin(&mut self) -> bool;

    /// Draws a positive path length with mean about `mean`, as the free
    /// path of a particle between interactions; the law's tail is
    /// truncated so that every draw stays small enough to step by.
    fn exponential(&mut self, mean: i64) -> (r: i64)
        requires
            1 <= mean <= 0x2000_0000_0000_0000,
        ensures
            1 <= r <= 2 * mean,
    ;
}

/// Relies on `rand::rngs::StdRng`, rand's seedable standard generator,
/// which is carried here as an opaque value.
#[verifier::external_type_specification]
#[verifier::external_body]
pub struct ExStdRng(rand::rngs::StdRng);

/// Relies on `rand::SeedableRng::seed_from_u64`: builds rand's standard
/// generator from a word-sized seed.
#[verifier::external_body]
fn std_rng_from_seed(seed: u64) -> rand::rngs::StdRng {
    <rand::rngs::StdRng as rand::SeedableRng>::seed_from_u64(seed)
}

/// Relies on `rand::Rng::gen_range` over a half-open `i64` range: the
/// result lies in the range, and the call panics only on an empty range,
/// which the precondition rules out.
#[verifier::external_body]
fn std_rng_range(rng: &mut rand::rngs::StdRng, lo: i64, hi: i64) -> (r: i64)
    requires
        lo < hi,
    ensures
        lo <= r < hi,
{
    rand::Rng::gen_range(rng, lo..hi)
}

/// Relies on `rand::Rng::gen` with the `Standard` distribution on `bool`,
/// which rand documents as a fair coin.
#[verifier::external_body]
fn std_rng_bool(rng: &mut rand::rngs::StdRng) -> bool {
    rand::Rng::gen::<bool>(rng)
}

/// Relies on `rand::thread_rng` and `rand::Rng::gen_range` over a
/// half-open `i64` range: the result lies in the range, and the call
/// panics only on an empty range, which the precondition rules out.
#[verifier::external_body]
fn thread_rng_range(lo: i64, hi: i64) -> (r: i64)
    requires
        lo < hi,
    ensures
        lo <= r < hi,
{
    rand::Rng::gen_range(&mut rand::thread_rng(), lo..hi)
}

/// Relies on `rand::thread_rng` and `rand::Rng::gen` with the `Standard`
/// distribution on `bool`, which rand documents as a fair coin.
#[verifier::external_body]
fn thread_rng_bool() -> bool {
    rand::Rng::gen::<bool>(&mut rand::thread_rng())
}

/// The thread-local random generator.
pub struct ThreadRandom {
    _private: (),
}

impl ThreadRandom {
    pub fn new() -> Self {
        ThreadRandom { _private: () }
    }
}

impl RandomSource for ThreadRandom {
    fn uniform(&mut self, lo: i64, hi: i64) -> i64 {
        thread_rng_range(lo, hi)
    }

    fn coin(&mut self) -> bool {
        thread_rng_bool()
    }

    fn exponential(&mut self, mean: i64) -> i64 {
        // A truncated geometric law with mean about `mean`: the path
        // grows by strides, each continued with probability
        // `1 - stride/mean`, and is cut at twice the mean — the
        // memoryless law on the integer grid, up to the cut.
        let stride: i64 = if mean < 32 {
            1
        } else {
            ((mean as u64) / 32) as i64
        };
        let mut r: i64 = 1;
        while r + stride <= 2 * mean
            invariant_except_break
                1 <= mean <= 0x2000_0000_0000_0000,
                1 <= stride <= mean,
                1 <= r <= 2 * mean,
            ensures
                1 <= r <= 2 * mean,
            decreases 2 * mean - r,
        {
            if thread_rng_range(0, mean) < stride {
                break ;
            }
            r = r + stride;
        }
        r
    }
}

/// A deterministic, seeded random generator, for reproducible runs.
pub struct SeededRandom {
    rng: rand::rngs::StdRng,
}

impl SeededRandom {
    pub fn new(seed: u64) -> Self {
        SeededRandom { rng: std_rng_from_seed(seed) }
    }
}

impl RandomSource for SeededRandom {
    fn uniform(&mut self, lo: i64, hi: i64) -> i64 {
        std_rng_range(&mut self.rng, lo, hi)
    }

    fn coin(&mut self) -> bool {
        std_rng_bool(&mut self.rng)
    }

    fn exponential(&mut self, mean: i64) -> i64 {
        // A truncated geometric law with mean about `mean`: the path
        // grows by strides, each continued with probability
        // `1 - stride/mean`, and is cut at twice the mean — the
        // memoryless law on the integer grid, up to the cut.
        let stride: i64 = if mean < 32 {
            1
        } else {
            ((mean as u64) / 32) as i64
        };
        let mut r: i64 = 1;
        while r + stride <= 2 * mean
            invariant_except_break
                1 <= mean <= 0x2000_0000_0000_0000,
                1 <= stride <= mean,
                1 <= r <= 2 * mean,
            ensures
                1 <= r <= 2 * mean,
            decreases 2 * mean - r,
        {
            if std_rng_range(&mut self.rng, 0, mean) < stride {
                break ;
            }
            r = r + stride;
        }
        r
    }
}

/// The sum of a sequence of integers.
pub open spec fn sum_of(s: Seq<int>) -> int
    decreases s.len(),
{
    if s.len() == 0 {
        0
    } else {
        sum_of(s.drop_last()) + s.last()
    }
}

/// The integer models of a sequence of machine integers.
pub open spec fn int_values(s: Seq<i64>) -> Seq<int> {
    s.map_values(|v: i64| v as int)
}

proof fn lemma_sum_take_step(s: Seq<int>, i: int)
    requires
        0 <= i < s.len(),
    ensures
        sum_of(s.subrange(0, i + 1)) == sum_of(s.subrange(0, i)) + s[i],
{
    assert(s.subrange(0, i + 1).drop_last() =~= s.subrange(0, i));
    assert(s.subrange(0, i + 1).last() == s[i]);
}

/// A sum of non-negative integers dominates each of its prefix sums.
proof fn lemma_sum_prefix_le(s: Seq<int>, i: int)
    requires
        0 <= i <= s.len(),
        forall|j: int| 0 <= j < s.len() ==> 0 <= #[trigger] s[j],
    ensures
        sum_of(s.subrange(0, i)) <= sum_of(s),
        0 <= sum_of(s.subrange(0, i)),
    decreases s.len() - i,
{
    assert(forall|j: int| 0 <= j < i ==> 0 <= #[trigger] s.subrange(0, i)[j]);
    lemma_sum_nonneg(s.subrange(0, i));
    if i == s.len() {
        assert(s.subrange(0, i) =~= s);
    } else {
        lemma_sum_take_step(s, i);
        lemma_sum_prefix_le(s, i + 1);
    }
}

proof fn lemma_sum_nonneg(s: Seq<int>)
    requires
        forall|j: int| 0 <= j < s.len() ==> 0 <= #[trigger] s[j],
    ensures
        0 <= sum_of(s),
    decreases s.len(),
{
    if s.len() > 0 {
        lemma_sum_nonneg(s.drop_last());
    }
}

/// Draws an index from `weights`, each index with probability
/// proportional to its weight: a categorical draw by cumulative sums.
///
/// The returned index always names a category of positive weight.
pub fn weighted_choice<R: RandomSource>(rng: &mut R, weights: &Vec<i64>) -> (r: usize)
    requires
        weights@.len() >= 1,
        forall|i: int| 0 <= i < weights@.len() ==> 0 <= #[trigger] weights@[i],
        0 < sum_of(int_values(weights@)) <= i64::MAX,
    ensures
        r < weights@.len(),
        weights@[r as int] > 0,
{
    let ghost ws = int_values(weights@);
    proof {
        assert(forall|j: int| 0 <= j < ws.len() ==> 0 <= #[trigger] ws[j]);
    }
    let n = weights.len();
    let mut total: i64 = 0;
    let mut i: usize = 0;
    while i < n
        invariant
            n == weights@.len(),
            0 <= i <= n,
            ws == int_values(weights@),
            forall|j: int| 0 <= j < ws.len() ==> 0 <= #[trigger] ws[j],
            0 < sum_of(ws) <= i64::MAX,
            total == sum_of(ws.subrange(0, i as int)),
        decreases n - i,
    {
        proof {
            lemma_sum_take_step(ws, i as int);
            lemma_sum_prefix_le(ws, i as int + 1);
            assert(ws[i as int] == weights@[i as int] as int);
        }
        total = total + weights[i];
        i += 1;
    }
    proof {
        assert(ws.subrange(0, n as int) =~= ws);
    }
    let choice = rng.uniform(0, total);
    let mut threshold: i64 = 0;
    let mut i: usize = 0;
    while i < n
        invariant
            n == weights@.len(),
            0 <= i <= n,
            ws == int_values(weights@),
            forall|j: int| 0 <= j < ws.len() ==> 0 <= #[trigger] ws[j],
            0 < sum_of(ws) <= i64::MAX,
            threshold == sum_of(ws.subrange(0, i as int)),
            choice >= threshold,
            choice < sum_of(ws),
        decreases n - i,
    {
        proof {
            lemma_sum_take_step(ws, i as int);
            lemma_sum_prefix_le(ws, i as int + 1);
            assert(ws[i as int] == weights@[i as int] as int);
        }
        threshold = threshold + weights[i];
        if choice < threshold {
            return i;
        }
        i += 1;
    }
    // The draw is below the total, so some cumulative sum exceeds it;
    // the scan cannot run off the end.
    proof {
        assert(ws.subrange(0, n as int) =~= ws);
        assert(false);
    }
    0
}

} // verus!
