//! Conversions over monochrome frame buffers: cross-width casting, the
//! checked byte-reinterpretation contract, and colormap tone mapping.

use vstd::prelude::*;
use crate::colormap::ColorMap;
use crate::framedata::FrameData;
use crate::pixel::MonoPixel;
use crate::pixel::Rgba8;

verus! {

/// The colormap index of a pixel value `v` under the linear tone map over
/// the scale range `[lo, hi]`: `(v - lo) * 255 / (hi - lo)`, clamped to
/// `[0, 255]`.
pub open spec fn linear_index(v: int, lo: int, hi: int) -> int {
    if v <= lo {
        0
    } else if (v - lo) * 255 / (hi - lo) > 255 {
        255
    } else {
        (v - lo) * 255 / (hi - lo)
    }
}

/// Law: with the scale range `[0, 255]`, the linear tone map is the
/// identity on in-range pixel values, so a pixel valued 0 maps to table
/// entry 0 and a pixel valued 255 maps to entry 255.
pub proof fn lemma_linear_index_identity(v: int)
    requires
        0 <= v <= 255,
    ensures
        linear_index(v, 0, 255) == v,
{
    if v > 0 {
        vstd::arithmetic::div_mod::lemma_div_by_multiple(v, 255);
    }
}

/// Law: the linear tone map is monotonic — a brighter pixel never maps to
/// an earlier colormap entry — and its index always lies in the table.
pub proof fn lemma_linear_index_monotonic(v1: int, v2: int, lo: int, hi: int)
    requires
        lo < hi,
        v1 <= v2,
    ensures
        linear_index(v1, lo, hi) <= linear_index(v2, lo, hi),
        0 <= linear_index(v1, lo, hi) <= 255,
{
    if lo < v1 {
        vstd::arithmetic::div_mod::lemma_div_pos_is_pos((v1 - lo) * 255, hi - lo);
        vstd::arithmetic::div_mod::lemma_div_pos_is_pos((v2 - lo) * 255, hi - lo);
        assert((v1 - lo) * 255 <= (v2 - lo) * 255) by (nonlinear_arith)
            requires
                v1 <= v2,
        ;
        vstd::arithmetic::div_mod::lemma_div_is_ordered(
            (v1 - lo) * 255,
            (v2 - lo) * 255,
            hi - lo,
        );
    } else if lo < v2 {
        vstd::arithmetic::div_mod::lemma_div_pos_is_pos((v2 - lo) * 255, hi - lo);
    }
}

impl<T: MonoPixel> FrameData<T> {
    /// A copy of `other` with every element narrowed (or widened) into this
    /// buffer's element type; narrowing truncates modulo the element width.
    pub fn convert_from<T2: MonoPixel>(other: &FrameData<T2>) -> (r: FrameData<T>)
        requires
            other.wf(),
        ensures
            r.wf(),
            r.width == other.width,
            r.height == other.height,
            forall|i: int|
                0 <= i < other.data@.len() ==> #[trigger] r.px(i) == other.px(i) % T::modulus(),
    {
        let n: usize = other.data.len();
        let mut data: Vec<T> = Vec::new();
        let mut i: usize = 0;
        while i < n
            invariant
                n == other.data@.len(),
                i <= n,
                data@.len() == i as int,
                forall|j: int|
                    0 <= j < i as int ==> #[trigger] data@[j].as_int() == other.px(j)
                        % T::modulus(),
            decreases n - i,
        {
            proof {
                other.data@[i as int].lemma_in_range();
            }
            let v = T::from_i64(other.data[i].to_i64());
            data.push(v);
            i = i + 1;
        }
        FrameData { width: other.width, height: other.height, data }
    }

    /// The buffer rendered through a colormap with the linear tone map:
    /// each pixel maps to the table entry at its `linear_index` over the
    /// scale range `[minscale, maxscale]`; out-of-range values clamp to the
    /// table boundaries.
    pub fn to_rgba(&self, minscale: T, maxscale: T, cmap: &ColorMap) -> (r: FrameData<Rgba8>)
        requires
            self.wf(),
            cmap.wf(),
            minscale.as_int() < maxscale.as_int(),
        ensures
            r.wf(),
            r.width == self.width,
            r.height == self.height,
            forall|i: int|
                0 <= i < self.data@.len() ==> #[trigger] r.data@[i] == cmap.table@[linear_index(
                    self.px(i),
                    minscale.as_int(),
                    maxscale.as_int(),
                )],
    {
        proof {
            minscale.lemma_in_range();
            maxscale.lemma_in_range();
            T::lemma_modulus();
        }
        let lo: i64 = minscale.to_i64();
        let hi: i64 = maxscale.to_i64();
        let range: u64 = (hi - lo) as u64;
        let n: usize = self.data.len();
        let mut data: Vec<Rgba8> = Vec::new();
        let mut i: usize = 0;
        while i < n
            invariant
                n == self.data@.len(),
                cmap.wf(),
                lo == minscale.as_int(),
                hi == maxscale.as_int(),
                0 <= lo < hi < T::modulus(),
                T::modulus() <= 65536,
                range == hi - lo,
                i <= n,
                data@.len() == i as int,
                forall|j: int|
                    0 <= j < i as int ==> #[trigger] data@[j] == cmap.table@[linear_index(
                        self.px(j),
                        lo as int,
                        hi as int,
                    )],
            decreases n - i,
        {
            proof {
                self.data@[i as int].lemma_in_range();
            }
            let x: i64 = self.data[i].to_i64();
            let idx: usize = if x <= lo {
                0
            } else {
                let num: u64 = ((x - lo) as u64) * 255;
                let q: u64 = num / range;
                proof {
                    vstd::arithmetic::div_mod::lemma_div_pos_is_pos(num as int, range as int);
                }
                if q > 255 {
                    255
                } else {
                    q as usize
                }
            };
            let e = cmap.entry(idx);
            data.push(e);
            i = i + 1;
        }
        FrameData { width: self.width, height: self.height, data }
    }
}

/// 16-bit monochrome elements reinterpreted as bytes, two per element,
/// little-endian: element `i` becomes bytes `2i` (low) and `2i + 1` (high).
pub fn mono16_to_bytes_le(data: &Vec<u16>) -> (r: Vec<u8>)
    requires
        data@.len() * 2 <= usize::MAX,
    ensures
        r@.len() == 2 * data@.len(),
        forall|i: int|
            0 <= i < data@.len() ==> r@[2 * i] == #[trigger] data@[i] % 256 && r@[2 * i + 1]
                == data@[i] / 256,
{
    let n: usize = data.len();
    let mut out: Vec<u8> = Vec::new();
    let mut i: usize = 0;
    while i < n
        invariant
            n == data@.len(),
            n * 2 <= usize::MAX,
            i <= n,
            out@.len() == 2 * i as int,
            forall|j: int|
                0 <= j < i as int ==> out@[2 * j] == #[trigger] data@[j] % 256 && out@[2 * j + 1]
                    == data@[j] / 256,
        decreases n - i,
    {
        let x: u16 = data[i];
        out.push((x % 256) as u8);
        out.push((x / 256) as u8);
        i = i + 1;
    }
    out
}

/// 16-bit monochrome elements reinterpreted as bytes, two per element,
/// big-endian (network order, as required for 16-bit file export): element
/// `i` becomes bytes `2i` (high) and `2i + 1` (low).
pub fn mono16_to_bytes_be(data: &Vec<u16>) -> (r: Vec<u8>)
    requires
        data@.len() * 2 <= usize::MAX,
    ensures
        r@.len() == 2 * data@.len(),
        forall|i: int|
            0 <= i < data@.len() ==> r@[2 * i] == #[trigger] data@[i] / 256 && r@[2 * i + 1]
                == data@[i] % 256,
{
    let n: usize = data.len();
    let mut out: Vec<u8> = Vec::new();
    let mut i: usize = 0;
    while i < n
        invariant
            n == data@.len(),
            n * 2 <= usize::MAX,
            i <= n,
            out@.len() == 2 * i as int,
            forall|j: int|
                0 <= j < i as int ==> out@[2 * j] == #[trigger] data@[j] / 256 && out@[2 * j + 1]
                    == data@[j] % 256,
        decreases n - i,
    {
        let x: u16 = data[i];
        out.push((x / 256) as u8);
        out.push((x % 256) as u8);
        i = i + 1;
    }
    out
}

/// The checked inverse of `mono16_to_bytes_le`: rejected unless the byte
/// count is even; otherwise bytes `2i` (low) and `2i + 1` (high) become
/// element `i`.
pub fn bytes_to_mono16_le(bytes: &Vec<u8>) -> (r: Option<Vec<u16>>)
    ensures
        bytes@.len() % 2 == 0 ==> (r matches Some(v) && v@.len() == bytes@.len() / 2 && forall|
            i: int,
        |
            0 <= i < v@.len() ==> #[trigger] v@[i] == bytes@[2 * i] + 256 * bytes@[2 * i + 1]),
        bytes@.len() % 2 != 0 ==> r is None,
{
    if bytes.len() % 2 != 0 {
        return None;
    }
    let n: usize = bytes.len() / 2;
    let mut out: Vec<u16> = Vec::new();
    let mut i: usize = 0;
    while i < n
        invariant
            bytes@.len() == 2 * n,
            bytes@.len() <= usize::MAX,
            i <= n,
            out@.len() == i as int,
            forall|j: int|
                0 <= j < i as int ==> #[trigger] out@[j] == bytes@[2 * j] + 256 * bytes@[2 * j
                    + 1],
        decreases n - i,
    {
        let low: u16 = bytes[2 * i] as u16;
        let high: u16 = bytes[2 * i + 1] as u16;
        out.push(low + 256 * high);
        i = i + 1;
    }
    Some(out)
}

/// Law: the byte reinterpretation contract is lossless — `n` 16-bit
/// elements reinterpret as exactly `2n` bytes and back to the original
/// elements. The hypotheses are the ensures of `mono16_to_bytes_le` and
/// `bytes_to_mono16_le`.
pub proof fn lemma_mono16_bytes_round_trip(words: Seq<u16>, bytes: Seq<u8>, back: Seq<u16>)
    requires
        bytes.len() == 2 * words.len(),
        forall|i: int|
            0 <= i < words.len() ==> bytes[2 * i] == #[trigger] words[i] % 256 && bytes[2 * i + 1]
                == words[i] / 256,
        back.len() == words.len(),
        forall|i: int|
            0 <= i < back.len() ==> #[trigger] back[i] == bytes[2 * i] + 256 * bytes[2 * i + 1],
    ensures
        back == words,
{
    assert forall|i: int| 0 <= i < words.len() implies back[i] == #[trigger] words[i] by {
        vstd::arithmetic::div_mod::lemma_fundamental_div_mod(words[i] as int, 256);
    }
    assert(back =~= words);
}

} // verus!
