//! Windowed statistics over a monochrome frame buffer: sum, sum of squares,
//! and extremal values, accumulated into 64-bit signed integers.

use vstd::prelude::*;
use crate::framedata::MonoFrameData;
use crate::pixel::MonoPixel;

verus! {

/// The sum of a sequence of values.
pub open spec fn sum_values(s: Seq<int>) -> int
    decreases s.len(),
{
    if s.len() == 0 {
        0
    } else {
        sum_values(s.drop_last()) + s.last()
    }
}

/// The sum of the squares of a sequence of values.
pub open spec fn sum_squares(s: Seq<int>) -> int
    decreases s.len(),
{
    if s.len() == 0 {
        0
    } else {
        sum_squares(s.drop_last()) + s.last() * s.last()
    }
}

/// The least of a seed value and the values of a sequence.
pub open spec fn min_fold(s: Seq<int>, seed: int) -> int
    decreases s.len(),
{
    if s.len() == 0 {
        seed
    } else {
        let rest = min_fold(s.drop_last(), seed);
        if s.last() < rest {
            s.last()
        } else {
            rest
        }
    }
}

/// The greatest of a seed value and the values of a sequence.
pub open spec fn max_fold(s: Seq<int>, seed: int) -> int
    decreases s.len(),
{
    if s.len() == 0 {
        seed
    } else {
        let rest = max_fold(s.drop_last(), seed);
        if s.last() > rest {
            s.last()
        } else {
            rest
        }
    }
}

/// Law: a buffer of identical elements valued `v` sums to the element count
/// times `v` (so its mean is `v`).
pub proof fn lemma_sum_constant(s: Seq<int>, v: int)
    requires
        forall|i: int| 0 <= i < s.len() ==> s[i] == v,
    ensures
        sum_values(s) == s.len() * v,
    decreases s.len(),
{
    if s.len() == 0 {
    } else {
        lemma_sum_constant(s.drop_last(), v);
        assert((s.len() - 1) * v + v == s.len() * v) by (nonlinear_arith);
    }
}

/// Law: a buffer of identical elements valued `v` sums to the element
/// count times `v` — stated directly over the value sequence `sum`'s
/// ensures speaks of, so `sum` on such a buffer returns `len * v`.
pub proof fn lemma_frame_sum_constant<T: MonoPixel>(frame: &MonoFrameData<T>, v: int)
    requires
        forall|i: int| 0 <= i < frame.data@.len() ==> #[trigger] frame.px(i) == v,
    ensures
        sum_values(frame.values()) == frame.data@.len() * v,
{
    assert forall|i: int| 0 <= i < frame.values().len() implies #[trigger] frame.values()[i]
        == v by {
        frame.lemma_values_index(i);
    }
    lemma_sum_constant(frame.values(), v);
}

/// Law: the minimum scan returns its seed or an element, and lies at or
/// below the seed and every element.
pub proof fn lemma_min_fold_characterization(s: Seq<int>, seed: int)
    ensures
        min_fold(s, seed) == seed || exists|i: int|
            0 <= i < s.len() && s[i] == min_fold(s, seed),
        min_fold(s, seed) <= seed,
        forall|i: int| 0 <= i < s.len() ==> min_fold(s, seed) <= #[trigger] s[i],
    decreases s.len(),
{
    if s.len() > 0 {
        lemma_min_fold_characterization(s.drop_last(), seed);
        assert forall|i: int| 0 <= i < s.len() implies min_fold(s, seed) <= #[trigger] s[i] by {
            if i < s.len() - 1 {
                assert(s.drop_last()[i] == s[i]);
            }
        }
        if min_fold(s, seed) != seed && min_fold(s, seed) != s.last() {
            let i = choose|i: int|
                0 <= i < s.drop_last().len() && s.drop_last()[i] == min_fold(
                    s.drop_last(),
                    seed,
                );
            assert(s[i] == min_fold(s, seed));
        }
    }
}

/// Law: the maximum scan returns its seed or an element, and lies at or
/// above the seed and every element.
pub proof fn lemma_max_fold_characterization(s: Seq<int>, seed: int)
    ensures
        max_fold(s, seed) == seed || exists|i: int|
            0 <= i < s.len() && s[i] == max_fold(s, seed),
        max_fold(s, seed) >= seed,
        forall|i: int| 0 <= i < s.len() ==> max_fold(s, seed) >= #[trigger] s[i],
    decreases s.len(),
{
    if s.len() > 0 {
        lemma_max_fold_characterization(s.drop_last(), seed);
        assert forall|i: int| 0 <= i < s.len() implies max_fold(s, seed) >= #[trigger] s[i] by {
            if i < s.len() - 1 {
                assert(s.drop_last()[i] == s[i]);
            }
        }
        if max_fold(s, seed) != seed && max_fold(s, seed) != s.last() {
            let i = choose|i: int|
                0 <= i < s.drop_last().len() && s.drop_last()[i] == max_fold(
                    s.drop_last(),
                    seed,
                );
            assert(s[i] == max_fold(s, seed));
        }
    }
}

impl<T: MonoPixel> MonoFrameData<T> {
    /// The sum of the buffer's values, accumulated into a 64-bit signed
    /// integer.
    pub fn sum(&self) -> (r: i64)
        requires
            self.wf(),
            self.data@.len() * (T::modulus() - 1) <= i64::MAX,
        ensures
            r == sum_values(self.values()),
    {
        proof {
            T::lemma_modulus();
        }
        let ghost m: int = T::modulus();
        let n: usize = self.data.len();
        let mut acc: i64 = 0;
        let mut i: usize = 0;
        while i < n
            invariant
                n == self.data@.len(),
                n * (m - 1) <= i64::MAX,
                m == T::modulus(),
                m >= 2,
                i <= n,
                0 <= acc <= i as int * (m - 1),
                acc == sum_values(self.values().take(i as int)),
            decreases n - i,
        {
            let x = self.data[i];
            proof {
                x.lemma_in_range();
                assert(i as int * (m - 1) + (m - 1) == (i as int + 1) * (m - 1)) by (nonlinear_arith);
                assert((i as int + 1) * (m - 1) <= n as int * (m - 1)) by (nonlinear_arith)
                    requires
                        i as int + 1 <= n as int,
                        m >= 2,
                ;
                assert(self.values().take(i as int + 1).drop_last() =~= self.values().take(
                    i as int,
                ));
            }
            acc = acc + x.to_i64();
            i = i + 1;
        }
        proof {
            assert(self.values().take(n as int) =~= self.values());
        }
        acc
    }

    /// The sum of the squares of the buffer's values, accumulated into a
    /// 64-bit signed integer.
    pub fn sumsq(&self) -> (r: i64)
        requires
            self.wf(),
            self.data@.len() * ((T::modulus() - 1) * (T::modulus() - 1)) <= i64::MAX,
        ensures
            r == sum_squares(self.values()),
    {
        proof {
            T::lemma_modulus();
        }
        let ghost m: int = T::modulus();
        let n: usize = self.data.len();
        let mut acc: i64 = 0;
        let mut i: usize = 0;
        while i < n
            invariant
                n == self.data@.len(),
                n * ((m - 1) * (m - 1)) <= i64::MAX,
                m == T::modulus(),
                m >= 2,
                i <= n,
                0 <= acc <= i as int * ((m - 1) * (m - 1)),
                acc == sum_squares(self.values().take(i as int)),
            decreases n - i,
        {
            let x = self.data[i];
            proof {
                x.lemma_in_range();
                assert(x.as_int() * x.as_int() <= (m - 1) * (m - 1)) by (nonlinear_arith)
                    requires
                        0 <= x.as_int() <= m - 1,
                ;
                assert(i as int * ((m - 1) * (m - 1)) + (m - 1) * (m - 1) == (i as int + 1) * ((m
                    - 1) * (m - 1))) by (nonlinear_arith);
                assert((i as int + 1) * ((m - 1) * (m - 1)) <= n as int * ((m - 1) * (m - 1)))
                    by (nonlinear_arith)
                    requires
                        i as int + 1 <= n as int,
                        m >= 2,
                ;
                assert(self.values().take(i as int + 1).drop_last() =~= self.values().take(
                    i as int,
                ));
            }
            let xv = x.to_i64();
            acc = acc + xv * xv;
            i = i + 1;
        }
        proof {
            assert(self.values().take(n as int) =~= self.values());
        }
        acc
    }

    /// The greatest value in the buffer; the scan is seeded at the element
    /// type's minimum, which an empty buffer returns unchanged.
    pub fn maxval(&self) -> (r: T)
        requires
            self.wf(),
        ensures
            r.as_int() == max_fold(self.values(), 0),
    {
        let n: usize = self.data.len();
        let mut acc: T = T::min_value();
        let mut i: usize = 0;
        while i < n
            invariant
                n == self.data@.len(),
                i <= n,
                acc.as_int() == max_fold(self.values().take(i as int), 0),
            decreases n - i,
        {
            let x = self.data[i];
            proof {
                assert(self.values().take(i as int + 1).drop_last() =~= self.values().take(
                    i as int,
                ));
            }
            if acc.lt(x) {
                acc = x;
            }
            i = i + 1;
        }
        proof {
            assert(self.values().take(n as int) =~= self.values());
        }
        acc
    }

    /// The least value in the buffer; the scan is seeded at the element
    /// type's maximum, which an empty buffer returns unchanged.
    pub fn minval(&self) -> (r: T)
        requires
            self.wf(),
        ensures
            r.as_int() == min_fold(self.values(), T::modulus() - 1),
    {
        let n: usize = self.data.len();
        let mut acc: T = T::max_value();
        let mut i: usize = 0;
        while i < n
            invariant
                n == self.data@.len(),
                i <= n,
                acc.as_int() == min_fold(self.values().take(i as int), T::modulus() - 1),
            decreases n - i,
        {
            let x = self.data[i];
            proof {
                assert(self.values().take(i as int + 1).drop_last() =~= self.values().take(
                    i as int,
                ));
            }
            if x.lt(acc) {
                acc = x;
            }
            i = i + 1;
        }
        proof {
            assert(self.values().take(n as int) =~= self.values());
        }
        acc
    }

    /// The least and greatest values in the buffer, computed in one pass;
    /// the scans are seeded as in `minval` and `maxval`.
    pub fn minmax(&self) -> (r: (T, T))
        requires
            self.wf(),
        ensures
            r.0.as_int() == min_fold(self.values(), T::modulus() - 1),
            r.1.as_int() == max_fold(self.values(), 0),
    {
        let n: usize = self.data.len();
        let mut lo: T = T::max_value();
        let mut hi: T = T::min_value();
        let mut i: usize = 0;
        while i < n
            invariant
                n == self.data@.len(),
                i <= n,
                lo.as_int() == min_fold(self.values().take(i as int), T::modulus() - 1),
                hi.as_int() == max_fold(self.values().take(i as int), 0),
            decreases n - i,
        {
            let x = self.data[i];
            proof {
                assert(self.values().take(i as int + 1).drop_last() =~= self.values().take(
                    i as int,
                ));
            }
            if x.lt(lo) {
                lo = x;
            }
            if hi.lt(x) {
                hi = x;
            }
            i = i + 1;
        }
        proof {
            assert(self.values().take(n as int) =~= self.values());
        }
        (lo, hi)
    }
}

} // verus!
