//! An incremental statistics accumulator.
//!
//! [`Statistics`] keeps a running count, mean, and sum of squared
//! deviations of a sample stream in constant memory, updating them with
//! the numerically stable one-pass recurrence.  The quantity type is
//! abstract: it only has to support accumulation and a paired
//! squared-quantity type, so lengths, energies, or plain numbers can all
//! be accumulated.  Each quantity carries a mathematical integer model,
//! and the accumulator's contracts state the exact recurrence over that
//! model whenever its arithmetic stays representable.

use vstd::prelude::*;
use crate::function::{quot, sqrt_floor};

verus! {

/// A trait alias that specifies all bounds required to store a variable in
/// a [`Statistics`] accumulator: the value is plain data with an integer
/// model and a zero element to start from.
pub trait Primitive: Sized + Copy {
    /// The mathematical value this datum stands for.
    ///
    /// A type that leaves the model at its default of zero makes the
    /// accumulator's value contracts vacuously true; exact types
    /// override it with their real value.
    open spec fn model(self) -> int {
        0
    }

    /// Whether a mathematical value is representable in this type.
    open spec fn fits(k: int) -> bool {
        true
    }

    /// The zero element, the state of an accumulator before any sample.
    fn zero() -> (r: Self)
        ensures
            r.model() == 0,
    ;
}

/// The trait of all types that can be accumulated: they support addition,
/// subtraction, and division by a sample count, each exact on the model
/// whenever the result is representable.
pub trait Cumulable: Primitive {
    fn plus(self, other: Self) -> (r: Self)
        ensures
            Self::fits(self.model() + other.model()) ==> r.model() == self.model()
                + other.model(),
    ;

    fn minus(self, other: Self) -> (r: Self)
        ensures
            Self::fits(self.model() - other.model()) ==> r.model() == self.model()
                - other.model(),
    ;

    /// Divides the accumulated value by a number of samples; division
    /// truncates toward zero, as [`quot`] does.
    fn div_count(self, n: u32) -> (r: Self)
        requires
            n >= 1,
        ensures
            r.model() == quot(self.model(), n as int),
    ;
}

/// Trait of all requirements for a type to be fed to [`Statistics`].
///
/// Broadly speaking, a type must support the following operations:
/// * it can be accumulated (for the mean);
/// * its squares can be accumulated (for the variance);
/// * the square root of the variance can be taken.
///
/// This is expressed by the bounds on `Self` and `Variance`.
pub trait Stat: Primitive + Cumulable {
    type Variance: Primitive + Cumulable;

    type StdDev: Primitive;

    /// Connects `Self::Variance` with `Self`: multiplies `d1` and `d2`,
    /// exact on the model whenever the product is representable.
    fn mul(d1: Self, d2: Self) -> (r: Self::Variance)
        ensures
            <Self::Variance as Primitive>::fits(d1.model() * d2.model()) ==> r.model()
                == d1.model() * d2.model(),
    ;

    /// Connects `Self::StdDev` with `Self::Variance`: takes the square
    /// root of `v`, on the model the integer square root.
    fn sqrt(v: Self::Variance) -> (r: Self::StdDev)
        ensures
            r.model() == sqrt_floor(v.model()),
    ;
}

/// The running mean after absorbing `xk` as the `n`-th sample: the old
/// mean `m` plus the deviation over the new count.
pub open spec fn welford_mean(m: int, xk: int, n: int) -> int {
    m + quot(xk - m, n)
}

/// The running sum of squared deviations after absorbing `xk` as the
/// `n`-th sample: the first deviation is taken against the old mean
/// `m`, the second against the updated one.
pub open spec fn welford_sum_sq(q: int, m: int, xk: int, n: int) -> int {
    q + (xk - m) * (xk - welford_mean(m, xk, n))
}

/// Whether the arithmetic of one update step stays representable in
/// the quantity type.
pub open spec fn welford_step_fits<X: Stat>(m: int, q: int, xk: int, n: int) -> bool {
    &&& X::fits(xk - m)
    &&& X::fits(welford_mean(m, xk, n))
    &&& X::fits(xk - welford_mean(m, xk, n))
    &&& <X::Variance as Primitive>::fits((xk - m) * (xk - welford_mean(m, xk, n)))
    &&& <X::Variance as Primitive>::fits(welford_sum_sq(q, m, xk, n))
}

/// Counter-like type to calculate statistics on a sample.
///
/// This type allows calculating the mean, standard deviation and standard
/// error of the mean in an incremental manner, using the classic one-pass
/// recurrence that recomputes the deviation after the mean update.
pub struct Statistics<X: Stat> {
    count: u32,
    mean: X,
    sum_of_squares: X::Variance,
    samples: Ghost<Seq<X>>,
}

impl<X: Stat> Statistics<X> {
    /// The samples pushed so far, in order.
    pub closed spec fn samples(self) -> Seq<X> {
        self.samples@
    }

    /// The accumulated mean value.
    pub closed spec fn mean_spec(self) -> X {
        self.mean
    }

    /// The model of the accumulated mean.
    pub closed spec fn mean_model(self) -> int {
        self.mean.model()
    }

    /// The model of the accumulated sum of squared deviations.
    pub closed spec fn sum_sq_model(self) -> int {
        self.sum_of_squares.model()
    }

    /// The count matches the number of samples seen.
    pub closed spec fn wf(self) -> bool {
        self.count == self.samples@.len()
    }

    /// Creates a new, empty `Statistics` object: no samples, and the
    /// mean and sum of squares at the zero element.
    pub fn new() -> (r: Self)
        ensures
            r.wf(),
            r.samples() == Seq::<X>::empty(),
            r.mean_model() == 0,
            r.sum_sq_model() == 0,
    {
        Statistics {
            count: 0,
            mean: X::zero(),
            sum_of_squares: <X::Variance as Primitive>::zero(),
            samples: Ghost(Seq::empty()),
        }
    }

    /// Takes a new sample point into consideration.
    ///
    /// Whenever the step's arithmetic stays representable, the mean and
    /// the sum of squared deviations follow the exact one-pass
    /// recurrence over the models.
    pub fn push(&mut self, x: X)
        requires
            old(self).wf(),
            old(self).samples().len() < u32::MAX,
        ensures
            final(self).wf(),
            final(self).samples() == old(self).samples().push(x),
            welford_step_fits::<X>(
                old(self).mean_model(),
                old(self).sum_sq_model(),
                x.model(),
                old(self).samples().len() as int + 1,
            ) ==> final(self).mean_model() == welford_mean(
                old(self).mean_model(),
                x.model(),
                old(self).samples().len() as int + 1,
            ) && final(self).sum_sq_model() == welford_sum_sq(
                old(self).sum_sq_model(),
                old(self).mean_model(),
                x.model(),
                old(self).samples().len() as int + 1,
            ),
    {
        let ghost m = self.mean.model();
        let ghost q = self.sum_of_squares.model();
        let ghost n: int = old(self).samples@.len() as int + 1;
        // Update the counter.
        self.count = self.count + 1;
        // Update the mean.
        let delta = x.minus(self.mean);
        self.mean = self.mean.plus(delta.div_count(self.count));
        // Update the sum of squares; the deviation is recomputed against
        // the new mean, which is what keeps the recurrence stable.
        let delta_2 = x.minus(self.mean);
        self.sum_of_squares = self.sum_of_squares.plus(X::mul(delta, delta_2));
        proof {
            if welford_step_fits::<X>(m, q, x.model(), n) {
                assert(delta.model() == x.model() - m);
                assert(self.mean.model() == welford_mean(m, x.model(), n));
                assert(delta_2.model() == x.model() - welford_mean(m, x.model(), n));
                assert(self.sum_of_squares.model() == welford_sum_sq(q, m, x.model(), n));
            }
            self.samples@ = self.samples@.push(x);
        }
    }

    /// Returns the empirical mean of the sample.
    ///
    /// An empty `Statistics` object returns the zero element of the
    /// sample type.
    pub fn mean(&self) -> (r: X)
        ensures
            r == self.mean_spec(),
            r.model() == self.mean_model(),
    {
        self.mean
    }

    /// Returns the empirical (unbiased) variance of the sample: the
    /// accumulated sum of squared deviations over the sample count less
    /// one.
    ///
    /// At least two sample points must have been `push`ed to calculate
    /// the variance: with enough data this returns `Some(variance)`,
    /// otherwise `None` is returned — exactly when fewer than two
    /// samples were seen.
    pub fn variance(&self) -> (r: Option<X::Variance>)
        requires
            self.wf(),
        ensures
            r is Some <==> self.samples().len() >= 2,
            match r {
                Some(v) => v.model() == quot(self.sum_sq_model(), self.samples().len() - 1),
                None => self.samples().len() < 2,
            },
    {
        if self.count > 1 {
            // Subtract one from `count` to get an unbiased estimator for
            // the variance.
            Some(self.sum_of_squares.div_count(self.count - 1))
        } else {
            None
        }
    }

    /// Returns the biased standard deviation of the sample.
    ///
    /// This simply returns the square root of the variance, so it is
    /// `Some` exactly when at least two samples have been `push`ed.
    /// While `variance()` is an unbiased estimator, the square root as
    /// a concave function re-introduces a slight bias.
    pub fn standard_deviation(&self) -> (r: Option<X::StdDev>)
        requires
            self.wf(),
        ensures
            r is Some <==> self.samples().len() >= 2,
            match r {
                Some(s) => s.model() == sqrt_floor(
                    quot(self.sum_sq_model(), self.samples().len() - 1),
                ),
                None => self.samples().len() < 2,
            },
    {
        match self.variance() {
            Some(v) => Some(X::sqrt(v)),
            None => None,
        }
    }

    /// Returns the biased standard error of the mean of the sample:
    /// the square root of the variance divided by the sample count.
    ///
    /// It is `Some` exactly when at least two samples have been
    /// `push`ed.
    pub fn error_of_mean(&self) -> (r: Option<X::StdDev>)
        requires
            self.wf(),
        ensures
            r is Some <==> self.samples().len() >= 2,
            match r {
                Some(s) => s.model() == sqrt_floor(
                    quot(
                        quot(self.sum_sq_model(), self.samples().len() - 1),
                        self.samples().len() as int,
                    ),
                ),
                None => self.samples().len() < 2,
            },
    {
        match self.variance() {
            Some(v) => Some(X::sqrt(v.div_count(self.count))),
            None => None,
        }
    }

    /// Successively `push`es all elements of `points` to `self`.
    pub fn extend(&mut self, points: &Vec<X>)
        requires
            old(self).wf(),
            old(self).samples().len() + points@.len() < u32::MAX,
        ensures
            final(self).wf(),
            final(self).samples() == old(self).samples() + points@,
    {
        let n = points.len();
        let mut i: usize = 0;
        while i < n
            invariant
                n == points@.len(),
                0 <= i <= n,
                self.wf(),
                old(self).samples().len() + points@.len() < u32::MAX,
                self.samples() == old(self).samples() + points@.subrange(0, i as int),
            decreases n - i,
        {
            self.push(points[i]);
            proof {
                assert(old(self).samples() + points@.subrange(0, i as int + 1) =~= (old(
                    self,
                ).samples() + points@.subrange(0, i as int)).push(points@[i as int]));
            }
            i += 1;
        }
        proof {
            assert(points@.subrange(0, n as int) =~= points@);
        }
    }

    /// Calculates the statistics of the sample provided by `points`.
    pub fn from_sample(points: &Vec<X>) -> (r: Self)
        requires
            points@.len() < u32::MAX,
        ensures
            r.wf(),
            r.samples() == points@,
    {
        let mut result = Self::new();
        result.extend(points);
        proof {
            assert(Seq::<X>::empty() + points@ =~= points@);
        }
        result
    }
}

impl Primitive for i64 {
    open spec fn model(self) -> int {
        self as int
    }

    open spec fn fits(k: int) -> bool {
        i64::MIN <= k <= i64::MAX
    }

    fn zero() -> Self {
        0
    }
}

impl Cumulable for i64 {
    fn plus(self, other: Self) -> Self {
        match self.checked_add(other) {
            Some(v) => v,
            None => self.wrapping_add(other),
        }
    }

    fn minus(self, other: Self) -> Self {
        match self.checked_sub(other) {
            Some(v) => v,
            None => self.wrapping_sub(other),
        }
    }

    fn div_count(self, n: u32) -> Self {
        proof {
            crate::function::lemma_quot_fits(self as int, n as int);
        }
        crate::function::div_trunc(self, n as i64)
    }
}

impl Stat for i64 {
    type Variance = i64;

    type StdDev = i64;

    fn mul(d1: Self, d2: Self) -> Self::Variance {
        match d1.checked_mul(d2) {
            Some(v) => v,
            None => d1.wrapping_mul(d2),
        }
    }

    fn sqrt(v: Self::Variance) -> Self::StdDev {
        if v <= 0 {
            0
        } else {
            let r = crate::function::isqrt(v as u64);
            proof {
                assert(r < 0x1_0000_0000) by (nonlinear_arith)
                    requires
                        r * r <= 0x7FFF_FFFF_FFFF_FFFF,
                ;
                crate::function::lemma_sqrt_floor_unique(v as int, r as int);
            }
            r as i64
        }
    }
}

} // verus!
