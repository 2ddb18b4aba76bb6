//! Elementwise arithmetic over monochrome frame buffers, with cross-width
//! promotion: the right-hand operand is converted into the left operand's
//! element type by modular (truncating) narrowing.

use vstd::prelude::*;
use vstd::arithmetic::power2::pow2;
use vstd::pervasive::VecAdditionalExecFns;
use crate::framedata::FrameData;
use crate::pixel::MonoPixel;

verus! {

impl<T: MonoPixel> FrameData<T> {
    /// Elementwise sum of two buffers of identical dimensions. Each
    /// right-hand element is first narrowed into this buffer's element type,
    /// and the addition wraps at the element width.
    pub fn add_frame<T2: MonoPixel>(&self, other: &FrameData<T2>) -> (r: FrameData<T>)
        requires
            self.wf(),
            other.wf(),
            self.same_dims(other),
        ensures
            r.wf(),
            r.width == self.width,
            r.height == self.height,
            forall|i: int|
                0 <= i < self.data@.len() ==> #[trigger] r.px(i) == (self.px(i) + other.px(i))
                    % T::modulus(),
    {
        let n: usize = self.data.len();
        let mut data: Vec<T> = Vec::new();
        let mut i: usize = 0;
        while i < n
            invariant
                n == self.data@.len(),
                other.data@.len() == n,
                i <= n,
                data@.len() == i as int,
                forall|j: int|
                    0 <= j < i as int ==> #[trigger] data@[j].as_int() == (self.px(j) + other.px(
                        j,
                    )) % T::modulus(),
            decreases n - i,
        {
            proof {
                other.data@[i as int].lemma_in_range();
                T2::lemma_modulus();
                T::lemma_modulus();
                vstd::arithmetic::div_mod::lemma_add_mod_noop_right(
                    self.px(i as int),
                    other.px(i as int),
                    T::modulus(),
                );
            }
            let b = T::from_i64(other.data[i].to_i64());
            let v = self.data[i].add_wrap(b);
            data.push(v);
            i = i + 1;
        }
        FrameData { width: self.width, height: self.height, data }
    }

    /// Elementwise difference of two buffers of identical dimensions, with
    /// the same narrowing rule as `add_frame`; the subtraction wraps at the
    /// element width.
    pub fn sub_frame<T2: MonoPixel>(&self, other: &FrameData<T2>) -> (r: FrameData<T>)
        requires
            self.wf(),
            other.wf(),
            self.same_dims(other),
        ensures
            r.wf(),
            r.width == self.width,
            r.height == self.height,
            forall|i: int|
                0 <= i < self.data@.len() ==> #[trigger] r.px(i) == (self.px(i) - other.px(i))
                    % T::modulus(),
    {
        let n: usize = self.data.len();
        let mut data: Vec<T> = Vec::new();
        let mut i: usize = 0;
        while i < n
            invariant
                n == self.data@.len(),
                other.data@.len() == n,
                i <= n,
                data@.len() == i as int,
                forall|j: int|
                    0 <= j < i as int ==> #[trigger] data@[j].as_int() == (self.px(j) - other.px(
                        j,
                    )) % T::modulus(),
            decreases n - i,
        {
            proof {
                other.data@[i as int].lemma_in_range();
                T2::lemma_modulus();
                T::lemma_modulus();
                vstd::arithmetic::div_mod::lemma_sub_mod_noop_right(
                    self.px(i as int),
                    other.px(i as int),
                    T::modulus(),
                );
            }
            let b = T::from_i64(other.data[i].to_i64());
            let v = self.data[i].sub_wrap(b);
            data.push(v);
            i = i + 1;
        }
        FrameData { width: self.width, height: self.height, data }
    }

    /// In-place elementwise sum: the analogue of `add_frame` that mutates
    /// this buffer's data directly.
    pub fn add_assign_frame<T2: MonoPixel>(&mut self, other: &FrameData<T2>)
        requires
            old(self).wf(),
            other.wf(),
            old(self).same_dims(other),
        ensures
            final(self).wf(),
            final(self).width == old(self).width,
            final(self).height == old(self).height,
            forall|i: int|
                0 <= i < old(self).data@.len() ==> #[trigger] final(self).px(i) == (old(self).px(i)
                    + other.px(i)) % T::modulus(),
    {
        let ghost orig: FrameData<T> = *self;
        let n: usize = self.data.len();
        let mut i: usize = 0;
        while i < n
            invariant
                n == orig.data@.len(),
                other.data@.len() == n,
                self.data@.len() == n,
                self.width == orig.width,
                self.height == orig.height,
                i <= n,
                forall|j: int| i as int <= j < n ==> #[trigger] self.data@[j] == orig.data@[j],
                forall|j: int|
                    0 <= j < i as int ==> (#[trigger] self.data@[j]).as_int() == (orig.px(j)
                        + other.px(j)) % T::modulus(),
            decreases n - i,
        {
            proof {
                other.data@[i as int].lemma_in_range();
                T2::lemma_modulus();
                T::lemma_modulus();
                vstd::arithmetic::div_mod::lemma_add_mod_noop_right(
                    self.px(i as int),
                    other.px(i as int),
                    T::modulus(),
                );
            }
            let b = T::from_i64(other.data[i].to_i64());
            let v = self.data[i].add_wrap(b);
            self.data.set(i, v);
            i = i + 1;
        }
    }

    /// In-place elementwise difference: the analogue of `sub_frame` that
    /// mutates this buffer's data directly.
    pub fn sub_assign_frame<T2: MonoPixel>(&mut self, other: &FrameData<T2>)
        requires
            old(self).wf(),
            other.wf(),
            old(self).same_dims(other),
        ensures
            final(self).wf(),
            final(self).width == old(self).width,
            final(self).height == old(self).height,
            forall|i: int|
                0 <= i < old(self).data@.len() ==> #[trigger] final(self).px(i) == (old(self).px(i)
                    - other.px(i)) % T::modulus(),
    {
        let ghost orig: FrameData<T> = *self;
        let n: usize = self.data.len();
        let mut i: usize = 0;
        while i < n
            invariant
                n == orig.data@.len(),
                other.data@.len() == n,
                self.data@.len() == n,
                self.width == orig.width,
                self.height == orig.height,
                i <= n,
                forall|j: int| i as int <= j < n ==> #[trigger] self.data@[j] == orig.data@[j],
                forall|j: int|
                    0 <= j < i as int ==> (#[trigger] self.data@[j]).as_int() == (orig.px(j)
                        - other.px(j)) % T::modulus(),
            decreases n - i,
        {
            proof {
                other.data@[i as int].lemma_in_range();
                T2::lemma_modulus();
                T::lemma_modulus();
                vstd::arithmetic::div_mod::lemma_sub_mod_noop_right(
                    self.px(i as int),
                    other.px(i as int),
                    T::modulus(),
                );
            }
            let b = T::from_i64(other.data[i].to_i64());
            let v = self.data[i].sub_wrap(b);
            self.data.set(i, v);
            i = i + 1;
        }
    }

    /// Every element multiplied by one scalar, which is first narrowed into
    /// this buffer's element type; the product wraps at the element width.
    pub fn mul_scalar<T2: MonoPixel>(&self, scalar: T2) -> (r: FrameData<T>)
        requires
            self.wf(),
        ensures
            r.wf(),
            r.width == self.width,
            r.height == self.height,
            forall|i: int|
                0 <= i < self.data@.len() ==> #[trigger] r.px(i) == (self.px(i) * scalar.as_int())
                    % T::modulus(),
    {
        proof {
            scalar.lemma_in_range();
            T2::lemma_modulus();
            T::lemma_modulus();
        }
        let s = T::from_i64(scalar.to_i64());
        let n: usize = self.data.len();
        let mut data: Vec<T> = Vec::new();
        let mut i: usize = 0;
        while i < n
            invariant
                n == self.data@.len(),
                s.as_int() == scalar.as_int() % T::modulus(),
                T::modulus() > 0,
                i <= n,
                data@.len() == i as int,
                forall|j: int|
                    0 <= j < i as int ==> #[trigger] data@[j].as_int() == (self.px(j)
                        * scalar.as_int()) % T::modulus(),
            decreases n - i,
        {
            proof {
                vstd::arithmetic::div_mod::lemma_mul_mod_noop_right(
                    self.px(i as int),
                    scalar.as_int(),
                    T::modulus(),
                );
            }
            let v = self.data[i].mul_wrap(s);
            data.push(v);
            i = i + 1;
        }
        FrameData { width: self.width, height: self.height, data }
    }

    /// Every element divided by one scalar of the same element type.
    pub fn div_scalar(&self, scalar: T) -> (r: FrameData<T>)
        requires
            self.wf(),
            scalar.as_int() != 0,
        ensures
            r.wf(),
            r.width == self.width,
            r.height == self.height,
            forall|i: int|
                0 <= i < self.data@.len() ==> #[trigger] r.px(i) == self.px(i) / scalar.as_int(),
    {
        let n: usize = self.data.len();
        let mut data: Vec<T> = Vec::new();
        let mut i: usize = 0;
        while i < n
            invariant
                n == self.data@.len(),
                scalar.as_int() != 0,
                i <= n,
                data@.len() == i as int,
                forall|j: int|
                    0 <= j < i as int ==> #[trigger] data@[j].as_int() == self.px(j)
                        / scalar.as_int(),
            decreases n - i,
        {
            let v = self.data[i].div_exact(scalar);
            data.push(v);
            i = i + 1;
        }
        FrameData { width: self.width, height: self.height, data }
    }

    /// Elementwise product of two buffers of the same element type and
    /// identical dimensions; products wrap at the element width.
    pub fn mul_frame(&self, other: &FrameData<T>) -> (r: FrameData<T>)
        requires
            self.wf(),
            other.wf(),
            self.same_dims(other),
        ensures
            r.wf(),
            r.width == self.width,
            r.height == self.height,
            forall|i: int|
                0 <= i < self.data@.len() ==> #[trigger] r.px(i) == (self.px(i) * other.px(i))
                    % T::modulus(),
    {
        let n: usize = self.data.len();
        let mut data: Vec<T> = Vec::new();
        let mut i: usize = 0;
        while i < n
            invariant
                n == self.data@.len(),
                other.data@.len() == n,
                i <= n,
                data@.len() == i as int,
                forall|j: int|
                    0 <= j < i as int ==> #[trigger] data@[j].as_int() == (self.px(j) * other.px(
                        j,
                    )) % T::modulus(),
            decreases n - i,
        {
            let v = self.data[i].mul_wrap(other.data[i]);
            data.push(v);
            i = i + 1;
        }
        FrameData { width: self.width, height: self.height, data }
    }

    /// Every element shifted left by `k` bits, scaling intensity by a power
    /// of two; bits shifted beyond the element width are dropped.
    pub fn shl_frame(&self, k: usize) -> (r: FrameData<T>)
        requires
            self.wf(),
            pow2(k as nat) < T::modulus(),
        ensures
            r.wf(),
            r.width == self.width,
            r.height == self.height,
            forall|i: int|
                0 <= i < self.data@.len() ==> #[trigger] r.px(i) == (self.px(i) * pow2(k as nat))
                    % T::modulus(),
    {
        let n: usize = self.data.len();
        let mut data: Vec<T> = Vec::new();
        let mut i: usize = 0;
        while i < n
            invariant
                n == self.data@.len(),
                pow2(k as nat) < T::modulus(),
                i <= n,
                data@.len() == i as int,
                forall|j: int|
                    0 <= j < i as int ==> #[trigger] data@[j].as_int() == (self.px(j) * pow2(
                        k as nat,
                    )) % T::modulus(),
            decreases n - i,
        {
            let v = self.data[i].shl_value(k);
            data.push(v);
            i = i + 1;
        }
        FrameData { width: self.width, height: self.height, data }
    }

    /// Every element shifted right by `k` bits, dividing intensity by a
    /// power of two.
    pub fn shr_frame(&self, k: usize) -> (r: FrameData<T>)
        requires
            self.wf(),
            pow2(k as nat) < T::modulus(),
        ensures
            r.wf(),
            r.width == self.width,
            r.height == self.height,
            forall|i: int|
                0 <= i < self.data@.len() ==> #[trigger] r.px(i) == self.px(i) / pow2(
                    k as nat,
                ) as int,
    {
        let n: usize = self.data.len();
        let mut data: Vec<T> = Vec::new();
        let mut i: usize = 0;
        while i < n
            invariant
                n == self.data@.len(),
                pow2(k as nat) < T::modulus(),
                i <= n,
                data@.len() == i as int,
                forall|j: int|
                    0 <= j < i as int ==> #[trigger] data@[j].as_int() == self.px(j) / pow2(
                        k as nat,
                    ) as int,
            decreases n - i,
        {
            let v = self.data[i].shr_value(k);
            data.push(v);
            i = i + 1;
        }
        FrameData { width: self.width, height: self.height, data }
    }

    /// In-place left shift: the analogue of `shl_frame` that mutates this
    /// buffer's data directly.
    pub fn shl_assign_frame(&mut self, k: usize)
        requires
            old(self).wf(),
            pow2(k as nat) < T::modulus(),
        ensures
            final(self).wf(),
            final(self).width == old(self).width,
            final(self).height == old(self).height,
            forall|i: int|
                0 <= i < old(self).data@.len() ==> #[trigger] final(self).px(i) == (old(self).px(i)
                    * pow2(k as nat)) % T::modulus(),
    {
        let ghost orig: FrameData<T> = *self;
        let n: usize = self.data.len();
        let mut i: usize = 0;
        while i < n
            invariant
                n == orig.data@.len(),
                self.data@.len() == n,
                self.width == orig.width,
                self.height == orig.height,
                pow2(k as nat) < T::modulus(),
                i <= n,
                forall|j: int| i as int <= j < n ==> #[trigger] self.data@[j] == orig.data@[j],
                forall|j: int|
                    0 <= j < i as int ==> (#[trigger] self.data@[j]).as_int() == (orig.px(j) * pow2(
                        k as nat,
                    )) % T::modulus(),
            decreases n - i,
        {
            let v = self.data[i].shl_value(k);
            self.data.set(i, v);
            i = i + 1;
        }
    }

    /// In-place right shift: the analogue of `shr_frame` that mutates this
    /// buffer's data directly.
    pub fn shr_assign_frame(&mut self, k: usize)
        requires
            old(self).wf(),
            pow2(k as nat) < T::modulus(),
        ensures
            final(self).wf(),
            final(self).width == old(self).width,
            final(self).height == old(self).height,
            forall|i: int|
                0 <= i < old(self).data@.len() ==> #[trigger] final(self).px(i) == old(self).px(i)
                    / pow2(k as nat) as int,
    {
        let ghost orig: FrameData<T> = *self;
        let n: usize = self.data.len();
        let mut i: usize = 0;
        while i < n
            invariant
                n == orig.data@.len(),
                self.data@.len() == n,
                self.width == orig.width,
                self.height == orig.height,
                pow2(k as nat) < T::modulus(),
                i <= n,
                forall|j: int| i as int <= j < n ==> #[trigger] self.data@[j] == orig.data@[j],
                forall|j: int|
                    0 <= j < i as int ==> (#[trigger] self.data@[j]).as_int() == orig.px(j) / pow2(
                        k as nat,
                    ) as int,
            decreases n - i,
        {
            let v = self.data[i].shr_value(k);
            self.data.set(i, v);
            i = i + 1;
        }
    }
}

/// Law: narrowing the wider addend first and then adding modulo the narrow
/// width gives the same element as adding the wide values and then
/// truncating. This is why cross-width `add_frame` truncates per the modular
/// conversion rather than erring.
pub proof fn lemma_narrowing_add(a: int, b: int, m: int)
    requires
        m > 0,
    ensures
        (a + b % m) % m == (a + b) % m,
{
    vstd::arithmetic::div_mod::lemma_add_mod_noop_right(a, b, m);
}

/// Law: the subtraction analogue of `lemma_narrowing_add`.
pub proof fn lemma_narrowing_sub(a: int, b: int, m: int)
    requires
        m > 0,
    ensures
        (a - b % m) % m == (a - b) % m,
{
    vstd::arithmetic::div_mod::lemma_sub_mod_noop_right(a, b, m);
}

/// Law: a left shift by `k` (truncated to `w` bits) followed by a right
/// shift by `k` yields the original element value reduced modulo
/// `2^(w - k)`: recovered exactly when no bits were lost, and otherwise
/// deterministically truncated to the low `w - k` bits.
pub proof fn lemma_shift_round_trip(x: int, k: nat, w: nat)
    requires
        0 <= x < pow2(w),
        k <= w,
    ensures
        ((x * pow2(k)) % pow2(w) as int) / pow2(k) as int == x % pow2((w - k) as nat) as int,
{
    let p = pow2(k) as int;
    let q = pow2((w - k) as nat) as int;
    let m = pow2(w) as int;
    vstd::arithmetic::power2::lemma_pow2_adds(k, (w - k) as nat);
    vstd::arithmetic::power2::lemma_pow2_pos(k);
    vstd::arithmetic::power2::lemma_pow2_pos((w - k) as nat);
    vstd::arithmetic::div_mod::lemma_fundamental_div_mod(x, q);
    let a = x / q;
    let r = x % q;
    vstd::arithmetic::div_mod::lemma_mod_bound(x, q);
    assert(x * p == m * a + r * p) by (nonlinear_arith)
        requires
            x == q * a + r,
            m == p * q,
    ;
    assert(r * p < m) by (nonlinear_arith)
        requires
            r < q,
            p > 0,
            m == p * q,
    ;
    assert(0 <= r * p) by (nonlinear_arith)
        requires
            0 <= r,
            p > 0,
    ;
    vstd::arithmetic::div_mod::lemma_mod_multiples_vanish(a, r * p, m);
    vstd::arithmetic::div_mod::lemma_small_mod((r * p) as nat, m as nat);
    assert((x * p) % m == r * p);
    vstd::arithmetic::div_mod::lemma_div_by_multiple(r, p);
    assert((r * p) / p == r);
}

/// Law: when `x` fits in `w - k` bits, the shift round trip is exact.
pub proof fn lemma_shift_round_trip_exact(x: int, k: nat, w: nat)
    requires
        0 <= x < pow2((w - k) as nat),
        k <= w,
    ensures
        ((x * pow2(k)) % pow2(w) as int) / pow2(k) as int == x,
{
    if k > 0 {
        vstd::arithmetic::power2::lemma_pow2_strictly_increases((w - k) as nat, w);
    }
    lemma_shift_round_trip(x, k, w);
    vstd::arithmetic::div_mod::lemma_small_mod(x as nat, pow2((w - k) as nat));
}

/// Law: the shift round trip stated over a monochrome element type, in the
/// very terms the ensures of `shl_frame` and `shr_frame` use: shifting an
/// element value left by `k` (wrapping at the element width) and then
/// right by `k` yields the value reduced modulo `modulus / 2^k` — the
/// original value whenever no bits were lost, and otherwise its low bits,
/// deterministically.
pub proof fn lemma_frame_shift_round_trip<T: MonoPixel>(x: int, k: nat)
    requires
        0 <= x < T::modulus(),
        pow2(k) < T::modulus(),
    ensures
        ((x * pow2(k)) % T::modulus()) / pow2(k) as int == x % (T::modulus() / pow2(k) as int),
{
    T::lemma_modulus();
    vstd::arithmetic::power2::lemma2_to64();
    let w: nat = if T::modulus() == 256 {
        8
    } else {
        16
    };
    crate::pixel::lemma_pow2_exp_bound(k, w);
    vstd::arithmetic::power2::lemma_pow2_subtracts(k, w);
    lemma_shift_round_trip(x, k, w);
}

} // verus!
