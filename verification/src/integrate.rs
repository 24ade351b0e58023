//! Monte-Carlo integration of 1-D functions.

use vstd::prelude::*;
use crate::sample::RandomSource;
use crate::statistics::Statistics;

verus! {

/// What one draw of a Monte-Carlo integration of `f` over `lo..hi`
/// can be: the integrand at some point of the range, scaled by the
/// width of the range.
pub open spec fn integral_draw<F: Fn(i64) -> i64>(f: F, lo: int, hi: int, v: int) -> bool {
    exists|x: i64, y: i64|
        lo <= x < hi && #[trigger] call_ensures(f, (x,), y) && v == y * (hi - lo)
}

/// Struct for Monte-Carlo integration of 1D functions.
///
/// This struct is exposed to allow continuous inspection of the
/// integration result and uncertainty via [`Statistics`]; for the
/// general use case, where only the result of the integration is
/// wanted, use [`integrate`].
pub struct Integrate<F: Fn(i64) -> i64> {
    func: F,
    lo: i64,
    hi: i64,
    width: i64,
}

impl<F: Fn(i64) -> i64> Integrate<F> {
    /// The lower end of the integration range.
    pub closed spec fn lo_of(self) -> int {
        self.lo as int
    }

    /// The upper end of the integration range.
    pub closed spec fn hi_of(self) -> int {
        self.hi as int
    }

    /// The cached width of the integration range.
    pub closed spec fn width_of(self) -> int {
        self.width as int
    }

    /// The integrand.
    pub closed spec fn func_of(self) -> F {
        self.func
    }

    /// The range is non-degenerate, the integrand accepts every point
    /// of the range, and every sampled contribution stays representable.
    pub open spec fn wf(self) -> bool {
        &&& self.lo_of() < self.hi_of()
        &&& self.hi_of() - self.lo_of() <= i64::MAX
        &&& self.width_of() == self.hi_of() - self.lo_of()
        &&& forall|x: i64|
            self.lo_of() <= x < self.hi_of() ==> call_requires(self.func_of(), (x,))
        &&& forall|x: i64, y: i64|
            self.lo_of() <= x < self.hi_of() && #[trigger] call_ensures(self.func_of(), (x,), y)
                ==> i64::MIN <= y * (self.hi_of() - self.lo_of()) <= i64::MAX
    }

    /// What one draw of the integration can be: the integrand at some
    /// point of the range, scaled by the width of the range.
    pub open spec fn is_draw(self, v: int) -> bool {
        integral_draw(self.func_of(), self.lo_of(), self.hi_of(), v)
    }

    /// Creates a new object that integrates `f` over the range from
    /// `lo` to `hi`.
    pub fn new(f: F, lo: i64, hi: i64) -> (r: Self)
        requires
            lo < hi,
            hi - lo <= i64::MAX,
            forall|x: i64| lo <= x < hi ==> call_requires(f, (x,)),
            forall|x: i64, y: i64|
                lo <= x < hi && #[trigger] call_ensures(f, (x,), y) ==> i64::MIN <= y * (hi - lo)
                    <= i64::MAX,
        ensures
            r.wf(),
            r.lo_of() == lo,
            r.hi_of() == hi,
            r.func_of() == f,
    {
        Integrate { func: f, lo, hi, width: hi - lo }
    }

    /// Draws one sample of the integration: the integrand at a point
    /// drawn uniformly from the range, scaled by the range's width.
    pub fn sample<R: RandomSource>(&self, rng: &mut R) -> (r: i64)
        requires
            self.wf(),
        ensures
            self.is_draw(r as int),
    {
        let x = rng.uniform(self.lo, self.hi);
        proof {
            assert(call_requires(self.func_of(), (x,)));
        }
        let y = (self.func)(x);
        proof {
            assert(call_ensures(self.func_of(), (x,), y));
            assert(i64::MIN <= y * (self.hi_of() - self.lo_of()) <= i64::MAX);
        }
        y * self.width
    }
}

/// Integrates a function `f(x)` over the range from `lo` to `hi`.
///
/// The argument `sample_size` specifies how many draws are made to get
/// the integration result; `rng` is used as the source of randomness.
///
/// The returned [`Statistics`] object provides the integration result
/// via its `mean()` method, and the integration precision via its
/// `error_of_mean()` method.  Every accumulated sample is the integrand
/// at some point of the range, scaled by the range's width.
pub fn integrate<F: Fn(i64) -> i64, R: RandomSource>(
    f: F,
    lo: i64,
    hi: i64,
    sample_size: usize,
    rng: &mut R,
) -> (r: Statistics<i64>)
    requires
        lo < hi,
        hi - lo <= i64::MAX,
        sample_size < u32::MAX,
        forall|x: i64| lo <= x < hi ==> call_requires(f, (x,)),
        forall|x: i64, y: i64|
            lo <= x < hi && #[trigger] call_ensures(f, (x,), y) ==> i64::MIN <= y * (hi - lo)
                <= i64::MAX,
    ensures
        r.wf(),
        r.samples().len() == sample_size,
        forall|i: int|
            0 <= i < r.samples().len() ==> #[trigger] integral_draw(
                f,
                lo as int,
                hi as int,
                r.samples()[i] as int,
            ),
{
    let integrator = Integrate::new(f, lo, hi);
    let mut result = Statistics::new();
    let mut i: usize = 0;
    while i < sample_size
        invariant
            integrator.wf(),
            integrator.lo_of() == lo,
            integrator.hi_of() == hi,
            integrator.func_of() == f,
            result.wf(),
            result.samples().len() == i,
            0 <= i <= sample_size,
            sample_size < u32::MAX,
            forall|j: int|
                0 <= j < i ==> #[trigger] integral_draw(
                    f,
                    lo as int,
                    hi as int,
                    result.samples()[j] as int,
                ),
        decreases sample_size - i,
    {
        let v = integrator.sample(rng);
        result.push(v);
        proof {
            assert(result.samples()[i as int] == v);
        }
        i += 1;
    }
    result
}

} // verus!
