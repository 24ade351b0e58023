//! Piecewise-linear functions over ordered numeric types.
//!
//! A [`Function`] stores a list of points with increasing X-values and can be
//! evaluated anywhere inside its domain by linear interpolation.  The numeric
//! types are abstracted by the traits [`Primitive`] and [`Number`], whose
//! contracts are stated over an exact integer model of each value.

use vstd::prelude::*;

verus! {

/// The base trait of all values a [`Function`] can hold.
///
/// Every value is modelled by a mathematical integer, `key`, and the
/// comparison operation is faithful to that model.
pub trait Primitive: Sized + Copy {
    /// The mathematical value this datum stands for.
    spec fn key(self) -> int;

    /// Compares two values according to their mathematical model.
    fn le(self, other: Self) -> (r: bool)
        ensures
            r == (self.key() <= other.key()),
    ;
}

/// The trait of all types that can be used with `Function`.
///
/// The essential operations are addition and subtraction; evaluation by
/// interpolation additionally needs [`Interpolable`].  Each operation is
/// exact on the integer model whenever the result is representable.
pub trait Number: Primitive {
    /// Whether a mathematical value is representable in this type.
    spec fn fits(k: int) -> bool;

    fn add(self, other: Self) -> (r: Self)
        requires
            Self::fits(self.key() + other.key()),
        ensures
            r.key() == self.key() + other.key(),
    ;

    fn sub(self, other: Self) -> (r: Self)
        requires
            Self::fits(self.key() - other.key()),
        ensures
            r.key() == self.key() - other.key(),
    ;

    fn mul(self, other: Self) -> (r: Self)
        requires
            Self::fits(self.key() * other.key()),
        ensures
            r.key() == self.key() * other.key(),
    ;
}

/// The trait of Y-axis types whose values can be divided by an X-axis run
/// and scaled back by an X-axis offset, as linear interpolation does.
pub trait Interpolable<X: Primitive>: Number {
    /// Computes `(self / dx) * t`: the slope of a segment rising by `self`
    /// over a run of `dx`, applied to an offset `t`.  Division truncates
    /// toward zero, as [`quot`] does.
    fn slope_times(self, dx: X, t: X) -> (r: Self)
        requires
            dx.key() != 0,
            Self::fits(quot(self.key(), dx.key())),
            Self::fits(quot(self.key(), dx.key()) * t.key()),
        ensures
            r.key() == quot(self.key(), dx.key()) * t.key(),
    ;
}

/// The absolute value of a mathematical integer.
pub open spec fn iabs(a: int) -> int {
    if a >= 0 {
        a
    } else {
        -a
    }
}

/// Integer division truncated toward zero, the semantics of `/` on the
/// machine integer types.
pub open spec fn quot(a: int, b: int) -> int
    recommends
        b != 0,
{
    if (a >= 0) == (b >= 0) {
        iabs(a) / iabs(b)
    } else {
        -(iabs(a) / iabs(b))
    }
}

/// The integer models of a sequence of values.
pub open spec fn keys_of<T: Primitive>(s: Seq<T>) -> Seq<int> {
    s.map_values(|v: T| v.key())
}

/// Whether a sequence of integers is sorted in an increasing manner.
pub open spec fn sorted(s: Seq<int>) -> bool {
    forall|i: int, j: int| 0 <= i <= j < s.len() ==> s[i] <= s[j]
}

/// The minimum of a non-empty sequence of integers.
pub open spec fn seq_min(s: Seq<int>) -> int
    recommends
        s.len() >= 1,
    decreases s.len(),
{
    if s.len() <= 1 {
        s[0]
    } else {
        let m = seq_min(s.drop_last());
        if s.last() < m {
            s.last()
        } else {
            m
        }
    }
}

/// The maximum of a non-empty sequence of integers.
pub open spec fn seq_max(s: Seq<int>) -> int
    recommends
        s.len() >= 1,
    decreases s.len(),
{
    if s.len() <= 1 {
        s[0]
    } else {
        let m = seq_max(s.drop_last());
        if s.last() > m {
            s.last()
        } else {
            m
        }
    }
}

proof fn lemma_seq_min_push(s: Seq<int>, v: int)
    requires
        s.len() >= 1,
    ensures
        seq_min(s.push(v)) == if v < seq_min(s) {
            v
        } else {
            seq_min(s)
        },
{
    assert(s.push(v).drop_last() =~= s);
    assert(s.push(v).last() == v);
}

proof fn lemma_seq_max_push(s: Seq<int>, v: int)
    requires
        s.len() >= 1,
    ensures
        seq_max(s.push(v)) == if v > seq_max(s) {
            v
        } else {
            seq_max(s)
        },
{
    assert(s.push(v).drop_last() =~= s);
    assert(s.push(v).last() == v);
}

/// An element of a non-empty sequence lies between its minimum and its
/// maximum.
pub proof fn lemma_seq_min_max_bound(s: Seq<int>, i: int)
    requires
        0 <= i < s.len(),
    ensures
        seq_min(s) <= s[i] <= seq_max(s),
    decreases s.len(),
{
    if i < s.len() - 1 {
        lemma_seq_min_max_bound(s.drop_last(), i);
    }
}

/// Linear interpolation with a truncated slope stays between its two
/// endpoint values.
pub proof fn lemma_interp_within(x0: int, y0: int, x1: int, y1: int, xk: int)
    requires
        x0 < xk < x1,
    ensures
        y0 <= y1 ==> y0 <= interp(x0, y0, x1, y1, xk) <= y1,
        y1 <= y0 ==> y1 <= interp(x0, y0, x1, y1, xk) <= y0,
{
    let dx = x1 - x0;
    let t = xk - x0;
    let a = iabs(y1 - y0);
    let qa = a / dx;
    vstd::arithmetic::div_mod::lemma_fundamental_div_mod(a, dx);
    vstd::arithmetic::div_mod::lemma_mod_bound(a, dx);
    vstd::arithmetic::div_mod::lemma_div_basics_4(a, dx);
    // The scaled slope cannot exceed the whole rise: qa * t <= qa * dx <= a.
    vstd::arithmetic::mul::lemma_mul_inequality(t, dx, qa);
    assert(t * qa == qa * t && dx * qa == qa * dx) by (nonlinear_arith);
    assert(0 <= qa * t) by (nonlinear_arith)
        requires
            0 <= qa,
            0 <= t,
    ;
    if y1 - y0 >= 0 {
        assert(quot(y1 - y0, dx) == qa);
    } else {
        assert(quot(y1 - y0, dx) == -qa);
        assert((-qa) * t == -(qa * t)) by (nonlinear_arith);
    }
}
proof fn lemma_adjacent_implies_sorted(s: Seq<int>)
    requires
        forall|i: int| 0 <= i < s.len() - 1 ==> #[trigger] s[i] <= s[i + 1],
    ensures
        sorted(s),
{
    assert forall|i: int, j: int| 0 <= i <= j < s.len() implies s[i] <= s[j] by {
        lemma_sorted_reach(s, i, j);
    }
}

proof fn lemma_sorted_reach(s: Seq<int>, i: int, j: int)
    requires
        forall|k: int| 0 <= k < s.len() - 1 ==> #[trigger] s[k] <= s[k + 1],
        0 <= i <= j < s.len(),
    ensures
        s[i] <= s[j],
    decreases j - i,
{
    if i < j {
        lemma_sorted_reach(s, i, j - 1);
        assert(s[j - 1] <= s[j]);
    }
}

/// Type that implements piecewise linear functions.
///
/// This type holds a table of points and evaluates the function they define
/// via linear interpolation.
pub struct Function<X, Y> {
    xdata: Vec<X>,
    ydata: Vec<Y>,
    ymin: Y,
    ymax: Y,
}

/// The value of the segment from `(x0, y0)` to `(x1, y1)` at `xk`, with
/// truncating integer division as [`quot`].
pub open spec fn interp(x0: int, y0: int, x1: int, y1: int, xk: int) -> int {
    y0 + quot(y1 - y0, x1 - x0) * (xk - x0)
}

/// The least index of an element of `s` that is at least `k`.
pub open spec fn first_at_least(s: Seq<int>, k: int) -> int
    decreases s.len(),
{
    if s.len() == 0 {
        0
    } else if s[0] >= k {
        0
    } else {
        1 + first_at_least(s.drop_first(), k)
    }
}

pub proof fn lemma_first_at_least(s: Seq<int>, k: int)
    requires
        s.len() >= 1,
        s.last() >= k,
    ensures
        0 <= first_at_least(s, k) < s.len(),
        s[first_at_least(s, k)] >= k,
        forall|j: int| 0 <= j < first_at_least(s, k) ==> s[j] < k,
    decreases s.len(),
{
    if s.len() >= 1 && s[0] < k {
        let t = s.drop_first();
        assert(t.last() == s.last());
        lemma_first_at_least(t, k);
        assert forall|j: int| 0 <= j < first_at_least(s, k) implies s[j] < k by {
            if j > 0 {
                assert(t[j - 1] < k);
            }
        }
    }
}

impl<X: Number, Y: Number> Function<X, Y> {
    /// The integer models of the X-values of the points.
    pub closed spec fn xs(self) -> Seq<int> {
        keys_of(self.xdata@)
    }

    /// The integer models of the Y-values of the points.
    pub closed spec fn ys(self) -> Seq<int> {
        keys_of(self.ydata@)
    }

    /// The model of the cached minimum of the Y-values.
    pub closed spec fn ymin_k(self) -> int {
        self.ymin.key()
    }

    /// The model of the cached maximum of the Y-values.
    pub closed spec fn ymax_k(self) -> int {
        self.ymax.key()
    }

    /// Well-formedness: one Y-value per X-value, at least one point,
    /// increasing X-values, and cached minimum and maximum of the
    /// Y-values.  This is open so that callers may use the sortedness
    /// of the X-values directly — for one, every stored X-value lies
    /// between the two ends of the domain.
    pub open spec fn wf(self) -> bool {
        &&& self.xs().len() == self.ys().len()
        &&& self.xs().len() >= 1
        &&& sorted(self.xs())
        &&& self.ymin_k() == seq_min(self.ys())
        &&& self.ymax_k() == seq_max(self.ys())
    }

    /// Creates a function that initially contains only one point.
    pub fn new(x: X, y: Y) -> (r: Self)
        ensures
            r.wf(),
            r.xs() =~= seq![x.key()],
            r.ys() =~= seq![y.key()],
    {
        let r = Function { xdata: vec![x], ydata: vec![y], ymin: y, ymax: y };
        proof {
            assert(r.xs() =~= seq![x.key()]);
            assert(r.ys() =~= seq![y.key()]);
        }
        r
    }

    /// Creates a function that initially contains only one point.
    ///
    /// Additionally, the contained vectors are initialized with the given
    /// capacity.
    pub fn with_capacity(capacity: usize, x: X, y: Y) -> (r: Self)
        ensures
            r.wf(),
            r.xs() =~= seq![x.key()],
            r.ys() =~= seq![y.key()],
    {
        let mut xdata: Vec<X> = Vec::with_capacity(capacity);
        let mut ydata: Vec<Y> = Vec::with_capacity(capacity);
        xdata.push(x);
        ydata.push(y);
        let r = Function { xdata, ydata, ymin: y, ymax: y };
        proof {
            assert(r.xs() =~= seq![x.key()]);
            assert(r.ys() =~= seq![y.key()]);
        }
        r
    }

    /// Returns a reference to the X-axis portions of the points.
    pub fn xdata(&self) -> (r: &Vec<X>)
        ensures
            keys_of(r@) == self.xs(),
    {
        &self.xdata
    }

    /// Returns a reference to the Y-axis portions of the points.
    pub fn ydata(&self) -> (r: &Vec<Y>)
        ensures
            keys_of(r@) == self.ys(),
    {
        &self.ydata
    }

    /// Returns the range of allowed X-values to `call` the function with,
    /// as the pair of the first and the last X-value.
    pub fn domain(&self) -> (r: (X, X))
        requires
            self.wf(),
        ensures
            r.0.key() == self.xs()[0],
            r.1.key() == self.xs().last(),
    {
        let start = self.xdata[0];
        let end = self.xdata[self.xdata.len() - 1];
        (start, end)
    }

    /// Returns the range of possible Y-values returned by this function,
    /// as the pair of its minimum and its maximum.
    pub fn codomain(&self) -> (r: (Y, Y))
        requires
            self.wf(),
        ensures
            r.0.key() == seq_min(self.ys()),
            r.1.key() == seq_max(self.ys()),
    {
        (*self.min(), *self.max())
    }

    /// Returns the minimum of the function.
    pub fn min(&self) -> (r: &Y)
        requires
            self.wf(),
        ensures
            r.key() == seq_min(self.ys()),
    {
        &self.ymin
    }

    /// Returns the maximum of the function.
    pub fn max(&self) -> (r: &Y)
        requires
            self.wf(),
        ensures
            r.key() == seq_max(self.ys()),
    {
        &self.ymax
    }

    /// Adds another point to the function.
    ///
    /// The function can only be extended to the right: `x` must not be less
    /// than the last X-value added.  It is allowed to pass in the same `x`
    /// twice with different Y-values; the function then becomes
    /// indeterminate at this point.
    pub fn push(&mut self, x: X, y: Y)
        requires
            old(self).wf(),
            old(self).xs().last() <= x.key(),
        ensures
            final(self).wf(),
            final(self).xs() =~= old(self).xs().push(x.key()),
            final(self).ys() =~= old(self).ys().push(y.key()),
    {
        if y.le(self.ymin) {
            self.ymin = y;
        } else if self.ymax.le(y) {
            self.ymax = y;
        }
        self.xdata.push(x);
        self.ydata.push(y);
        proof {
            lemma_seq_min_push(old(self).ys(), y.key());
            lemma_seq_max_push(old(self).ys(), y.key());
            assert(self.xs() =~= old(self).xs().push(x.key()));
            assert(self.ys() =~= old(self).ys().push(y.key()));
            let xs = self.xs();
            assert forall|i: int, j: int| 0 <= i <= j < xs.len() implies xs[i] <= xs[j] by {
                if j == xs.len() - 1 && i < j {
                    assert(old(self).xs()[i] <= old(self).xs().last());
                }
            }
        }
    }

    /// Scales the X-axis with a constant, non-negative factor, so that the
    /// X-values remain sorted in an increasing manner.
    pub fn scale_x(self, scale: X) -> (r: Self)
        requires
            self.wf(),
            scale.key() >= 0,
            forall|i: int| 0 <= i < self.xs().len() ==> X::fits(scale.key() * self.xs()[i]),
        ensures
            r.wf(),
            r.xs() =~= self.xs().map_values(|k: int| scale.key() * k),
            r.ys() == self.ys(),
    {
        let mut xdata: Vec<X> = Vec::new();
        let n = self.xdata.len();
        let ghost target = self.xs().map_values(|k: int| scale.key() * k);
        let mut i: usize = 0;
        while i < n
            invariant
                n == self.xdata@.len(),
                0 <= i <= n,
                self.wf(),
                scale.key() >= 0,
                forall|k: int| 0 <= k < self.xs().len() ==> X::fits(scale.key() * self.xs()[k]),
                target == self.xs().map_values(|k: int| scale.key() * k),
                keys_of(xdata@) =~= target.subrange(0, i as int),
            decreases n - i,
        {
            assert(self.xs()[i as int] == self.xdata@[i as int].key());
            let v = scale.mul(self.xdata[i]);
            xdata.push(v);
            proof {
                assert(target.subrange(0, i as int).push(v.key()) =~= target.subrange(0, i + 1));
                assert(keys_of(xdata@) =~= target.subrange(0, i + 1));
            }
            i += 1;
        }
        let r = Function { xdata, ydata: self.ydata, ymin: self.ymin, ymax: self.ymax };
        proof {
            assert(target.subrange(0, n as int) =~= target);
            assert(r.xs() =~= self.xs().map_values(|k: int| scale.key() * k));
            assert(r.ys() == self.ys());
            assert forall|a: int, b: int| 0 <= a <= b < r.xs().len() implies r.xs()[a]
                <= r.xs()[b] by {
                assert(self.xs()[a] <= self.xs()[b]);
                broadcast use vstd::arithmetic::mul::lemma_mul_inequality;

                vstd::arithmetic::mul::lemma_mul_is_commutative(scale.key(), self.xs()[a]);
                vstd::arithmetic::mul::lemma_mul_is_commutative(scale.key(), self.xs()[b]);
                vstd::arithmetic::mul::lemma_mul_inequality(self.xs()[a], self.xs()[b], scale.key());
            }
        }
        r
    }

    /// Scales the Y-axis with a constant factor.
    ///
    /// This iterates over the Y-axis data a second time to recalculate the
    /// minimum and the maximum.
    pub fn scale_y(self, scale: Y) -> (r: Self)
        requires
            self.wf(),
            forall|i: int| 0 <= i < self.ys().len() ==> Y::fits(scale.key() * self.ys()[i]),
        ensures
            r.wf(),
            r.xs() == self.xs(),
            r.ys() =~= self.ys().map_values(|k: int| scale.key() * k),
    {
        let mut ydata: Vec<Y> = Vec::new();
        let n = self.ydata.len();
        assert(self.ys()[0] == self.ydata@[0].key());
        let first = scale.mul(self.ydata[0]);
        let mut ymin = first;
        let mut ymax = first;
        ydata.push(first);
        let ghost target = self.ys().map_values(|k: int| scale.key() * k);
        let mut i: usize = 1;
        proof {
            assert(keys_of(ydata@) =~= target.subrange(0, 1));
        }
        while i < n
            invariant
                n == self.ydata@.len(),
                1 <= i <= n,
                self.wf(),
                forall|k: int| 0 <= k < self.ys().len() ==> Y::fits(scale.key() * self.ys()[k]),
                target == self.ys().map_values(|k: int| scale.key() * k),
                keys_of(ydata@) =~= target.subrange(0, i as int),
                ymin.key() == seq_min(target.subrange(0, i as int)),
                ymax.key() == seq_max(target.subrange(0, i as int)),
            decreases n - i,
        {
            assert(self.ys()[i as int] == self.ydata@[i as int].key());
            let v = scale.mul(self.ydata[i]);
            if v.le(ymin) {
                ymin = v;
            }
            if ymax.le(v) {
                ymax = v;
            }
            ydata.push(v);
            proof {
                lemma_seq_min_push(target.subrange(0, i as int), v.key());
                lemma_seq_max_push(target.subrange(0, i as int), v.key());
                assert(target.subrange(0, i as int).push(v.key()) =~= target.subrange(
                    0,
                    i + 1,
                ));
                assert(keys_of(ydata@) =~= target.subrange(0, i + 1));
            }
            i += 1;
        }
        let r = Function { xdata: self.xdata, ydata, ymin, ymax };
        proof {
            assert(target.subrange(0, n as int) =~= target);
            assert(r.ys() =~= target);
        }
        r
    }

    /// Scales both the X- and the Y-axis by constant factors.
    pub fn scale(self, xscale: X, yscale: Y) -> (r: Self)
        requires
            self.wf(),
            xscale.key() >= 0,
            forall|i: int| 0 <= i < self.xs().len() ==> X::fits(xscale.key() * self.xs()[i]),
            forall|i: int| 0 <= i < self.ys().len() ==> Y::fits(yscale.key() * self.ys()[i]),
        ensures
            r.wf(),
            r.xs() =~= self.xs().map_values(|k: int| xscale.key() * k),
            r.ys() =~= self.ys().map_values(|k: int| yscale.key() * k),
    {
        self.scale_x(xscale).scale_y(yscale)
    }
}

impl<X: Number, Y: Interpolable<X>> Function<X, Y> {
    /// The index of the point used when evaluating at `xk`: the least index
    /// whose X-value is at least `xk`.
    pub open spec fn seg_index(self, xk: int) -> int {
        first_at_least(self.xs(), xk)
    }

    /// The value of this function at `xk`: the stored Y-value on an exact
    /// hit, and the linear interpolation of the surrounding segment
    /// otherwise.
    pub open spec fn call_spec(self, xk: int) -> int {
        let i = self.seg_index(xk);
        if self.xs()[i] == xk {
            self.ys()[i]
        } else {
            interp(self.xs()[i - 1], self.ys()[i - 1], self.xs()[i], self.ys()[i], xk)
        }
    }

    /// Whether the interpolation arithmetic at `xk` stays representable.
    pub open spec fn call_safe(self, xk: int) -> bool {
        let i = self.seg_index(xk);
        self.xs()[i] == xk || {
            let x0 = self.xs()[i - 1];
            let y0 = self.ys()[i - 1];
            let x1 = self.xs()[i];
            let y1 = self.ys()[i];
            &&& X::fits(x1 - x0)
            &&& X::fits(xk - x0)
            &&& Y::fits(y1 - y0)
            &&& Y::fits(quot(y1 - y0, x1 - x0))
            &&& Y::fits(quot(y1 - y0, x1 - x0) * (xk - x0))
            &&& Y::fits(y0 + quot(y1 - y0, x1 - x0) * (xk - x0))
        }
    }

    /// Evaluates the function at a given point.
    ///
    /// If `x` is exactly the value of one of the points of the function, the
    /// corresponding Y-value is returned.  Otherwise, an interpolated value
    /// between the two closest points is returned.  `x` must lie within the
    /// domain of this function.
    pub fn call(&self, x: X) -> (r: Y)
        requires
            self.wf(),
            self.xs()[0] <= x.key() <= self.xs().last(),
            self.call_safe(x.key()),
        ensures
            r.key() == self.call_spec(x.key()),
    {
        let ghost xk = x.key();
        proof {
            lemma_first_at_least(self.xs(), xk);
        }
        let n = self.xdata.len();
        let mut i: usize = 0;
        while !x.le(self.xdata[i])
            invariant
                self.wf(),
                n == self.xdata@.len(),
                self.xs()[0] <= xk <= self.xs().last(),
                xk == x.key(),
                0 <= i < n,
                forall|j: int| 0 <= j < i ==> self.xs()[j] < xk,
                i <= self.seg_index(xk),
            decreases n - i,
        {
            proof {
                lemma_first_at_least(self.xs(), xk);
                assert(self.xs()[i as int] == self.xdata@[i as int].key());
                assert(self.xs()[i as int] < xk);
                if self.seg_index(xk) <= i {
                    assert(self.xs()[self.seg_index(xk)] < xk);
                    assert(false);
                }
                assert(i + 1 <= self.seg_index(xk));
            }
            i += 1;
        }
        proof {
            lemma_first_at_least(self.xs(), xk);
            assert(self.xs()[i as int] == self.xdata@[i as int].key());
            assert(self.xs()[i as int] >= xk);
            if i < self.seg_index(xk) {
                assert(self.xs()[i as int] < xk);
            }
            assert(i == self.seg_index(xk));
        }
        if self.xdata[i].le(x) {
            // An exact hit: the X-value at `i` equals `x` on the model.
            return self.ydata[i];
        }
        proof {
            assert(self.xs()[i as int] != xk);
            if i == 0 {
                assert(self.xs()[0] <= xk);
            }
        }
        let left = (self.xdata[i - 1], self.ydata[i - 1]);
        let right = (self.xdata[i], self.ydata[i]);
        proof {
            assert(self.xs()[i - 1] < xk < self.xs()[i as int]);
        }
        Self::interpolate(left, right, x)
    }

    /// The value of the function at any point of its domain lies
    /// between the minimum and the maximum of the stored Y-values:
    /// interpolation with a truncated slope never leaves its segment.
    pub proof fn lemma_call_spec_within(self, xk: int)
        requires
            self.wf(),
            self.xs()[0] <= xk <= self.xs().last(),
        ensures
            seq_min(self.ys()) <= self.call_spec(xk) <= seq_max(self.ys()),
    {
        lemma_first_at_least(self.xs(), xk);
        let i = self.seg_index(xk);
        if self.xs()[i] == xk {
            lemma_seq_min_max_bound(self.ys(), i);
        } else {
            assert(i >= 1);
            assert(self.xs()[i - 1] < xk < self.xs()[i]);
            lemma_interp_within(
                self.xs()[i - 1],
                self.ys()[i - 1],
                self.xs()[i],
                self.ys()[i],
                xk,
            );
            lemma_seq_min_max_bound(self.ys(), i - 1);
            lemma_seq_min_max_bound(self.ys(), i);
        }
    }

    /// Interpolates between two points with distinct X-values.
    pub fn interpolate(left: (X, Y), right: (X, Y), x: X) -> (r: Y)
        requires
            left.0.key() != right.0.key(),
            X::fits(right.0.key() - left.0.key()),
            X::fits(x.key() - left.0.key()),
            Y::fits(right.1.key() - left.1.key()),
            Y::fits(quot(right.1.key() - left.1.key(), right.0.key() - left.0.key())),
            Y::fits(
                quot(right.1.key() - left.1.key(), right.0.key() - left.0.key()) * (x.key()
                    - left.0.key()),
            ),
            Y::fits(
                left.1.key() + quot(right.1.key() - left.1.key(), right.0.key() - left.0.key()) * (
                x.key() - left.0.key()),
            ),
        ensures
            r.key() == interp(left.0.key(), left.1.key(), right.0.key(), right.1.key(), x.key()),
    {
        let (x0, y0) = left;
        let (x1, y1) = right;
        let dy = y1.sub(y0);
        let run = x1.sub(x0);
        let slope_term = dy.slope_times(run, x.sub(x0));
        y0.add(slope_term)
    }
}

impl Primitive for i64 {
    open spec fn key(self) -> int {
        self as int
    }

    fn le(self, other: Self) -> bool {
        self <= other
    }
}

impl Number for i64 {
    open spec fn fits(k: int) -> bool {
        i64::MIN <= k <= i64::MAX
    }

    fn add(self, other: Self) -> i64 {
        self + other
    }

    fn sub(self, other: Self) -> i64 {
        self - other
    }

    fn mul(self, other: Self) -> i64 {
        self * other
    }
}

impl Interpolable<i64> for i64 {
    fn slope_times(self, dx: i64, t: i64) -> i64 {
        let s = div_trunc(self, dx);
        s * t
    }
}

/// Returns `true` if all numbers are sorted in an increasing manner.
pub fn is_sorted<X: Number>(nums: &Vec<X>) -> (r: bool)
    ensures
        r == sorted(keys_of(nums@)),
{
    let n = nums.len();
    let mut i: usize = 0;
    let mut ok = true;
    while i + 1 < n
        invariant
            n == nums@.len(),
            0 <= i,
            n <= 1 ==> i == 0,
            n >= 1 ==> i <= n - 1,
            ok == forall|j: int| 0 <= j < i ==> #[trigger] keys_of(nums@)[j] <= keys_of(nums@)[j
                + 1],
        decreases n - i,
    {
        proof {
            assert(keys_of(nums@)[i as int] == nums@[i as int].key());
            assert(keys_of(nums@)[i + 1] == nums@[i + 1].key());
        }
        let pair_ok = nums[i].le(nums[i + 1]);
        ok = ok && pair_ok;
        i += 1;
    }
    proof {
        if ok {
            lemma_adjacent_implies_sorted(keys_of(nums@));
        }
    }
    ok
}

/// The quotient of a representable value by a positive divisor is
/// itself representable.
pub proof fn lemma_quot_fits(a: int, b: int)
    requires
        i64::MIN <= a <= i64::MAX,
        b >= 1,
    ensures
        i64::MIN <= quot(a, b) <= i64::MAX,
        a >= 0 ==> 0 <= quot(a, b) <= a,
        a < 0 ==> a <= quot(a, b) <= 0,
{
    vstd::arithmetic::div_mod::lemma_div_basics_4(iabs(a), b);
    vstd::arithmetic::div_mod::lemma_div_basics_5(iabs(a), b);
}

/// Truncating division on `i64`, computed on magnitudes so that the
/// semantics match [`quot`] exactly.
pub(crate) fn div_trunc(a: i64, b: i64) -> (r: i64)
    requires
        b != 0,
        i64::MIN <= quot(a as int, b as int) <= i64::MAX,
    ensures
        r as int == quot(a as int, b as int),
{
    let am: u64 = abs_u64(a);
    let bm: u64 = abs_u64(b);
    let q: u64 = am / bm;
    proof {
        assert(q == iabs(a as int) / iabs(b as int));
    }
    if (a >= 0) == (b >= 0) {
        assert(quot(a as int, b as int) == q as int);
        q as i64
    } else {
        assert(quot(a as int, b as int) == -(q as int));
        (-(q as i128)) as i64
    }
}

/// The integer square root on the model: the greatest `r` whose square
/// is at most `n`, and `0` for negative `n`.
pub open spec fn sqrt_floor(n: int) -> int
    decreases n,
{
    if n <= 0 {
        0
    } else {
        let r = sqrt_floor(n - 1);
        if (r + 1) * (r + 1) <= n {
            r + 1
        } else {
            r
        }
    }
}

/// The integer square root is non-negative and brackets its argument
/// between consecutive squares.
pub proof fn lemma_sqrt_floor_bounds(n: int)
    requires
        0 <= n,
    ensures
        0 <= sqrt_floor(n),
        sqrt_floor(n) * sqrt_floor(n) <= n,
        n < (sqrt_floor(n) + 1) * (sqrt_floor(n) + 1),
    decreases n,
{
    if n > 0 {
        lemma_sqrt_floor_bounds(n - 1);
        let r = sqrt_floor(n - 1);
        if (r + 1) * (r + 1) <= n {
            assert(n == (r + 1) * (r + 1));
            assert((r + 1) * (r + 1) < (r + 2) * (r + 2)) by (nonlinear_arith)
                requires
                    r >= 0,
            ;
        }
    }
}

/// The bracketing bounds pin the root: any non-negative `r` with them
/// is the integer square root.
pub proof fn lemma_sqrt_floor_unique(n: int, r: int)
    requires
        0 <= r,
        r * r <= n,
        n < (r + 1) * (r + 1),
    ensures
        sqrt_floor(n) == r,
{
    assert(0 <= r * r) by (nonlinear_arith)
        requires
            0 <= r,
    ;
    lemma_sqrt_floor_bounds(n);
    let s = sqrt_floor(n);
    if s < r {
        assert((s + 1) * (s + 1) <= r * r) by (nonlinear_arith)
            requires
                0 <= s + 1 <= r,
        ;
        assert(false);
    }
    if s > r {
        assert((r + 1) * (r + 1) <= s * s) by (nonlinear_arith)
            requires
                0 <= r + 1 <= s,
        ;
        assert(false);
    }
}

/// The integer square root: the greatest `r` whose square is at most `n`.
pub fn isqrt(n: u64) -> (r: u64)
    ensures
        r * r <= n < (r + 1) * (r + 1),
{
    let mut lo: u64 = 0;
    let mut hi: u64 = 0x1_0000_0000;
    while lo + 1 < hi
        invariant
            lo < hi <= 0x1_0000_0000,
            lo * lo <= n,
            hi * hi > n,
        decreases hi - lo,
    {
        let mid = lo + (hi - lo) / 2;
        proof {
            assert(lo < mid < hi);
            assert(mid * mid < 0x1_0000_0000_0000_0000) by (nonlinear_arith)
                requires
                    0 <= mid < 0x1_0000_0000,
            ;
        }
        if mid * mid <= n {
            lo = mid;
        } else {
            hi = mid;
        }
    }
    lo
}

/// The magnitude of an `i64`, exact even for the smallest value.
fn abs_u64(a: i64) -> (r: u64)
    ensures
        r as int == iabs(a as int),
{
    if a >= 0 {
        a as u64
    } else {
        (-(a as i128)) as u64
    }
}

} // verus!
