//! Histograms: counting how often values fall into each bin of a range.

use vstd::prelude::*;
use crate::contains::Contains;
use crate::function::{
    first_at_least, keys_of, lemma_first_at_least, quot, sorted, Primitive,
};

verus! {

/// A bin count grown by a weight, capped at the counter's capacity.
pub open spec fn add_capped(a: u32, w: u32) -> u32 {
    if a + w > u32::MAX {
        u32::MAX
    } else {
        (a + w) as u32
    }
}

/// Histograms count for a range of values which occurred how often.
///
/// The bins are given by a sorted list of edges; bin `i` spans the
/// closed interval from edge `i` to edge `i + 1`, and a fill lands in
/// the first bin that contains the value.
pub struct Histogram<X> {
    range: (X, X),
    edges: Vec<X>,
    weights: Vec<u32>,
}

impl<X: Primitive> Histogram<X> {
    /// The integer models of the bin edges.
    pub closed spec fn edges_k(self) -> Seq<int> {
        keys_of(self.edges@)
    }

    /// The contents of the bins.
    pub closed spec fn counts(self) -> Seq<u32> {
        self.weights@
    }

    /// The model of the lower end of the range.
    pub closed spec fn range_lo_k(self) -> int {
        self.range.0.key()
    }

    /// The model of the upper end of the range.
    pub closed spec fn range_hi_k(self) -> int {
        self.range.1.key()
    }

    /// Well-formedness: at least one bin, sorted edges, one counter per
    /// bin, and the cached range matching the outer edges.  This is
    /// open so that callers may use the sortedness of the edges and the
    /// bin count directly.
    pub open spec fn wf(self) -> bool {
        &&& self.edges_k().len() >= 2
        &&& sorted(self.edges_k())
        &&& self.counts().len() == self.edges_k().len() - 1
        &&& self.range_lo_k() == self.edges_k()[0]
        &&& self.range_hi_k() == self.edges_k().last()
    }

    /// The index of the bin in which a value lies: the first bin whose
    /// closed span contains it, or nothing outside the range.
    pub open spec fn find_bin_spec(self, xk: int) -> Option<int> {
        if self.edges_k()[0] <= xk <= self.edges_k().last() {
            Some(first_at_least(self.edges_k().drop_first(), xk))
        } else {
            None
        }
    }

    /// Creates a histogram over the given sorted bin edges, with every
    /// bin empty.
    pub fn from_edges(edges: Vec<X>) -> (r: Self)
        requires
            edges@.len() >= 2,
            sorted(keys_of(edges@)),
        ensures
            r.wf(),
            r.edges_k() == keys_of(edges@),
            r.counts().len() == edges@.len() - 1,
            forall|i: int| 0 <= i < r.counts().len() ==> r.counts()[i] == 0,
    {
        let n = edges.len() - 1;
        let mut weights: Vec<u32> = Vec::new();
        while weights.len() < n
            invariant
                weights@.len() <= n,
                forall|i: int| 0 <= i < weights@.len() ==> weights@[i] == 0,
            decreases n - weights@.len(),
        {
            weights.push(0);
        }
        let range = (edges[0], edges[n]);
        Histogram { range, edges, weights }
    }

    /// Returns the lower and upper limit of the histogram.
    pub fn range(&self) -> (r: &(X, X))
        requires
            self.wf(),
        ensures
            r.0.key() == self.edges_k()[0],
            r.1.key() == self.edges_k().last(),
    {
        &self.range
    }

    /// Returns the number of bins of this histogram.
    pub fn num_bins(&self) -> (r: usize)
        ensures
            r == self.counts().len(),
    {
        self.weights.len()
    }

    /// Returns the number of bin edges of this histogram.
    ///
    /// This is exactly `self.num_bins() + 1`.
    pub fn num_bin_edges(&self) -> (r: usize)
        ensures
            r == self.edges_k().len(),
    {
        self.edges.len()
    }

    /// Returns the low edges of the histogram's bins.
    pub fn bin_low_edges(&self) -> (r: Vec<X>)
        requires
            self.wf(),
        ensures
            keys_of(r@) =~= self.edges_k().subrange(0, self.edges_k().len() - 1),
    {
        let n = self.weights.len();
        let mut r: Vec<X> = Vec::new();
        let mut i: usize = 0;
        while i < n
            invariant
                self.wf(),
                n == self.weights@.len(),
                0 <= i <= n,
                r@.len() == i,
                forall|j: int| 0 <= j < i ==> r@[j] == self.edges@[j],
            decreases n - i,
        {
            r.push(self.edges[i]);
            i += 1;
        }
        proof {
            assert forall|j: int| 0 <= j < n implies keys_of(r@)[j] == self.edges_k().subrange(
                0,
                self.edges_k().len() - 1,
            )[j] by {
                assert(keys_of(r@)[j] == r@[j].key());
                assert(self.edges_k()[j] == self.edges@[j].key());
            }
            assert(keys_of(r@) =~= self.edges_k().subrange(0, self.edges_k().len() - 1));
        }
        r
    }

    /// Returns the high edges of the histogram's bins.
    pub fn bin_high_edges(&self) -> (r: Vec<X>)
        requires
            self.wf(),
        ensures
            keys_of(r@) =~= self.edges_k().subrange(1, self.edges_k().len() as int),
    {
        let n = self.weights.len();
        let mut r: Vec<X> = Vec::new();
        let mut i: usize = 0;
        while i < n
            invariant
                self.wf(),
                n == self.weights@.len(),
                0 <= i <= n,
                r@.len() == i,
                forall|j: int| 0 <= j < i ==> r@[j] == self.edges@[j + 1],
            decreases n - i,
        {
            r.push(self.edges[i + 1]);
            i += 1;
        }
        proof {
            assert forall|j: int| 0 <= j < n implies keys_of(r@)[j] == self.edges_k().subrange(
                1,
                self.edges_k().len() as int,
            )[j] by {
                assert(keys_of(r@)[j] == r@[j].key());
                assert(self.edges_k()[j + 1] == self.edges@[j + 1].key());
            }
            assert(keys_of(r@) =~= self.edges_k().subrange(1, self.edges_k().len() as int));
        }
        r
    }

    /// Returns the contents of each of the histogram's bins.
    pub fn bin_contents(&self) -> (r: &Vec<u32>)
        ensures
            r@ == self.counts(),
    {
        &self.weights
    }

    /// Increases the bin located at `x` by one.
    ///
    /// If `x` lies outside of the range of the histogram, this method
    /// does nothing.
    pub fn fill(&mut self, x: X)
        requires
            old(self).wf(),
        ensures
            final(self).wf(),
            final(self).edges_k() == old(self).edges_k(),
            match old(self).find_bin_spec(x.key()) {
                Some(i) => final(self).counts() == old(self).counts().update(
                    i,
                    add_capped(old(self).counts()[i], 1),
                ),
                None => final(self).counts() == old(self).counts(),
            },
    {
        self.fill_by(x, 1)
    }

    /// Increases the bin located at `x` by `weight`, saturating at the
    /// counter's capacity.
    ///
    /// If `x` lies outside of the range of the histogram, this method
    /// does nothing.
    pub fn fill_by(&mut self, x: X, weight: u32)
        requires
            old(self).wf(),
        ensures
            final(self).wf(),
            final(self).edges_k() == old(self).edges_k(),
            match old(self).find_bin_spec(x.key()) {
                Some(i) => final(self).counts() == old(self).counts().update(
                    i,
                    add_capped(old(self).counts()[i], weight),
                ),
                None => final(self).counts() == old(self).counts(),
            },
    {
        match self.find_bin(x) {
            Some(i) => {
                let c = self.weights[i];
                self.weights[i] = c.saturating_add(weight);
                proof {
                    assert(self.counts() =~= old(self).counts().update(
                        i as int,
                        add_capped(old(self).counts()[i as int], weight),
                    ));
                }
            },
            None => {},
        }
    }

    /// Returns the index of the bin in which `x` lies.
    ///
    /// If `x` lies outside of the range of this histogram, `None` is
    /// returned.
    pub fn find_bin(&self, x: X) -> (r: Option<usize>)
        requires
            self.wf(),
        ensures
            match r {
                Some(i) => self.find_bin_spec(x.key()) == Some(i as int) && i
                    < self.counts().len(),
                None => self.find_bin_spec(x.key()) is None,
            },
    {
        let ghost xk = x.key();
        let ghost inner = self.edges_k().drop_first();
        if !self.range.contains(x) {
            return None;
        }
        proof {
            assert(inner.last() == self.edges_k().last());
            lemma_first_at_least(inner, xk);
        }
        let n = self.weights.len();
        let mut i: usize = 0;
        while i < n
            invariant
                self.wf(),
                n == self.weights@.len(),
                0 <= i <= n,
                xk == x.key(),
                inner == self.edges_k().drop_first(),
                self.edges_k()[0] <= xk <= self.edges_k().last(),
                forall|j: int| 0 <= j < i ==> inner[j] < xk,
            decreases n - i,
        {
            let window = (self.edges[i], self.edges[i + 1]);
            proof {
                assert(self.edges_k()[i as int] == self.edges@[i as int].key());
                assert(self.edges_k()[i + 1] == self.edges@[i + 1].key());
                assert(inner[i as int] == self.edges_k()[i + 1]);
            }
            if window.contains(x) {
                proof {
                    lemma_first_at_least(inner, xk);
                    let fa = first_at_least(inner, xk);
                    if fa < i {
                        assert(inner[fa] < xk);
                        assert(false);
                    }
                    if fa > i {
                        assert(inner[i as int] < xk);
                        assert(false);
                    }
                }
                return Some(i);
            }
            proof {
                if i == 0 {
                    assert(self.edges_k()[0] <= xk);
                } else {
                    assert(inner[i - 1] < xk);
                    assert(self.edges_k()[i as int] < xk);
                }
                assert(self.edges_k()[i + 1] < xk);
            }
            i += 1;
        }
        // The value lies in the range, so the last edge is at least the
        // value; some window must have contained it.
        proof {
            assert(inner[n - 1] == self.edges_k().last());
            assert(false);
        }
        None
    }
}

impl Histogram<i64> {
    /// Creates a new histogram with `nbins` equal bins filling the range
    /// from `low` to `high`, which must divide evenly.
    pub fn new(nbins: usize, low: i64, high: i64) -> (r: Self)
        requires
            1 <= nbins < 0xFFFF_FFFF,
            low < high,
            high - low <= i64::MAX,
            (high - low) % (nbins as int) == 0,
        ensures
            r.wf(),
            r.edges_k().len() == nbins + 1,
            r.counts().len() == nbins,
            forall|i: int| 0 <= i < r.counts().len() ==> r.counts()[i] == 0,
            forall|i: int| 0 <= i <= nbins ==> r.edges_k()[i] == low + ((high - low) / (
            nbins as int)) * i,
    {
        let span = ((high as i128 - low as i128) as u64);
        let width = (span / (nbins as u64)) as i64;
        let ghost w = (high - low) as int / (nbins as int);
        proof {
            vstd::arithmetic::div_mod::lemma_fundamental_div_mod((high - low) as int, nbins as int);
            assert(w * (nbins as int) == high - low);
            vstd::arithmetic::div_mod::lemma_div_basics_4((high - low) as int, nbins as int);
        }
        let mut edges: Vec<i64> = Vec::new();
        let mut e: i64 = low;
        let mut i: usize = 0;
        while i <= nbins
            invariant
                1 <= nbins < 0xFFFF_FFFF,
                low < high,
                high - low <= i64::MAX,
                0 <= w,
                w == width,
                w * (nbins as int) == high - low,
                0 <= i <= nbins + 1,
                edges@.len() == i,
                i <= nbins ==> e == low + w * i,
                forall|j: int| 0 <= j < i ==> keys_of(edges@)[j] == low + w * j,
            decreases nbins + 1 - i,
        {
            proof {
                vstd::arithmetic::mul::lemma_mul_inequality(0, i as int, w);
                vstd::arithmetic::mul::lemma_mul_inequality(i as int, nbins as int, w);
                assert(w * (i as int) == (i as int) * w && w * (nbins as int) == (nbins as int)
                    * w && 0 * w == 0) by (nonlinear_arith);
            }
            let ghost before = edges@;
            edges.push(e);
            proof {
                assert forall|j: int| 0 <= j < i + 1 implies keys_of(edges@)[j] == low + w
                    * j by {
                    assert(edges@[j] == before.push(e)[j]);
                    assert(keys_of(edges@)[j] == edges@[j].key());
                    if j < i {
                        assert(keys_of(before)[j] == before[j].key());
                    }
                }
            }
            if i < nbins {
                proof {
                    vstd::arithmetic::mul::lemma_mul_inequality(i + 1, nbins as int, w);
                    assert(w * (i + 1) == (i + 1) * w) by (nonlinear_arith);
                    assert(w * (i + 1) == w * (i as int) + w) by (nonlinear_arith);
                }
                e = e + width;
            }
            proof {
                assert(i <= nbins < 0xFFFF_FFFF);
            }
            i += 1;
        }
        proof {
            let ks = keys_of(edges@);
            assert forall|a: int, b: int| 0 <= a <= b < ks.len() implies ks[a] <= ks[b] by {
                vstd::arithmetic::mul::lemma_mul_inequality(a, b, w);
                assert(w * a == a * w && w * b == b * w) by (nonlinear_arith);
            }
        }
        let r = Self::from_edges(edges);
        proof {
            assert(w * (nbins as int) == high - low);
        }
        r
    }

    /// Returns the width of each bin of this histogram, assuming the
    /// bins are equal: the range span divided by the number of bins.
    pub fn bin_width(&self) -> (r: i64)
        requires
            self.wf(),
            self.edges_k().last() - self.edges_k()[0] <= i64::MAX,
            self.counts().len() <= i64::MAX,
        ensures
            r as int == quot(
                self.edges_k().last() - self.edges_k()[0],
                self.counts().len() as int,
            ),
    {
        let n = self.weights.len();
        let low = self.edges[0];
        let high = self.edges[self.edges.len() - 1];
        proof {
            crate::function::lemma_quot_fits((high - low) as int, n as int);
        }
        crate::function::div_trunc(high - low, n as i64)
    }

    /// Returns the centers of the histogram's bins: the midpoint of each
    /// pair of neighbouring edges.
    pub fn bin_centers(&self) -> (r: Vec<i64>)
        requires
            self.wf(),
            forall|i: int| 0 <= i < self.counts().len() ==> i64::MIN <= #[trigger] (
            self.edges_k()[i] + self.edges_k()[i + 1]) <= i64::MAX,
        ensures
            r@.len() == self.counts().len(),
            forall|i: int| 0 <= i < r@.len() ==> r@[i] == quot(
                self.edges_k()[i] + self.edges_k()[i + 1],
                2,
            ),
    {
        let n = self.weights.len();
        let mut r: Vec<i64> = Vec::new();
        let mut i: usize = 0;
        while i < n
            invariant
                self.wf(),
                n == self.weights@.len(),
                0 <= i <= n,
                forall|j: int| 0 <= j < n ==> i64::MIN <= #[trigger] (self.edges_k()[j]
                    + self.edges_k()[j + 1]) <= i64::MAX,
                r@.len() == i,
                forall|j: int| 0 <= j < i ==> r@[j] == quot(
                    self.edges_k()[j] + self.edges_k()[j + 1],
                    2,
                ),
            decreases n - i,
        {
            proof {
                assert(self.edges_k()[i as int] == self.edges@[i as int].key());
                assert(self.edges_k()[i + 1] == self.edges@[i + 1].key());
                crate::function::lemma_quot_fits(
                    (self.edges_k()[i as int] + self.edges_k()[i + 1]) as int,
                    2,
                );
            }
            let mid = crate::function::div_trunc(self.edges[i] + self.edges[i + 1], 2);
            r.push(mid);
            i += 1;
        }
        r
    }
}

} // verus!
