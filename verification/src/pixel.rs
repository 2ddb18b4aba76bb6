//! Pixel element contract: the closed set of pixel layouts, and the traits a
//! type must satisfy to serve as a frame element.

use vstd::prelude::*;
use vstd::arithmetic::power2::pow2;

verus! {

/// A power of two below another power of two has the smaller exponent.
pub(crate) proof fn lemma_pow2_exp_bound(k: nat, w: nat)
    requires
        pow2(k) < pow2(w),
    ensures
        k < w,
{
    if k > w {
        vstd::arithmetic::power2::lemma_pow2_strictly_increases(w, k);
    }
}

/// The closed set of supported pixel byte layouts and channel counts.
#[derive(Debug, Clone, Copy, PartialEq, Eq, Structural)]
pub enum PixelType {
    Gray8,
    Gray16,
    Rgb8,
    Rgb16,
    Rgba8,
    Rgba16,
}

/// Contract for any type usable as a frame element: fixed size, trivially
/// copyable, tagged with its pixel kind.
pub trait Pixel: Sized + Copy {
    /// The size of one element in bytes.
    spec fn spec_size() -> int;

    /// The pixel kind tag of this element type.
    spec fn spec_pixel_type() -> PixelType;

    /// The size of one element in bytes.
    fn size(&self) -> (r: usize)
        ensures
            r == Self::spec_size(),
    ;

    /// The pixel kind tag of this element type.
    fn pixel_type(&self) -> (r: PixelType)
        ensures
            r == Self::spec_pixel_type(),
    ;
}

/// Contract for a monochrome frame element: an unsigned integer of a fixed
/// bit width, convertible to and from a 64-bit signed integer, with modular
/// (truncating) narrowing and extremal constants.
///
/// `as_int` is the mathematical value of the element; every value lies in
/// `[0, modulus)`, where `modulus` is two to the bit width.
pub trait MonoPixel: Pixel {
    /// The mathematical value held by this element.
    spec fn as_int(self) -> int;

    /// One more than the largest representable value: two to the bit width.
    spec fn modulus() -> int;

    /// The modulus is a power of two: 2^8 or 2^16.
    proof fn lemma_modulus()
        ensures
            Self::modulus() == 256 || Self::modulus() == 65536,
    ;

    /// Every element value lies in `[0, modulus)`.
    proof fn lemma_in_range(self)
        ensures
            0 <= self.as_int() < Self::modulus(),
    ;

    /// The additive identity.
    fn zero_value() -> (r: Self)
        ensures
            r.as_int() == 0,
    ;

    /// The multiplicative identity.
    fn one_value() -> (r: Self)
        ensures
            r.as_int() == 1,
    ;

    /// The smallest representable value.
    fn min_value() -> (r: Self)
        ensures
            r.as_int() == 0,
    ;

    /// The largest representable value.
    fn max_value() -> (r: Self)
        ensures
            r.as_int() == Self::modulus() - 1,
    ;

    /// The value as a 64-bit signed integer.
    fn to_i64(self) -> (r: i64)
        ensures
            r == self.as_int(),
    ;

    /// Conversion from a non-negative 64-bit integer; a value too wide for
    /// this element truncates to its residue modulo the element's modulus.
    fn from_i64(v: i64) -> (r: Self)
        requires
            0 <= v,
        ensures
            r.as_int() == (v as int) % Self::modulus(),
    ;

    /// Modular addition.
    fn add_wrap(self, other: Self) -> (r: Self)
        ensures
            r.as_int() == (self.as_int() + other.as_int()) % Self::modulus(),
    ;

    /// Modular subtraction.
    fn sub_wrap(self, other: Self) -> (r: Self)
        ensures
            r.as_int() == (self.as_int() - other.as_int()) % Self::modulus(),
    ;

    /// Modular multiplication.
    fn mul_wrap(self, other: Self) -> (r: Self)
        ensures
            r.as_int() == (self.as_int() * other.as_int()) % Self::modulus(),
    ;

    /// Integer division.
    fn div_exact(self, other: Self) -> (r: Self)
        requires
            other.as_int() != 0,
        ensures
            r.as_int() == self.as_int() / other.as_int(),
    ;

    /// Left shift: scales by two to the `k` while dropping bits shifted
    /// beyond the element width.
    fn shl_value(self, k: usize) -> (r: Self)
        requires
            pow2(k as nat) < Self::modulus(),
        ensures
            r.as_int() == (self.as_int() * pow2(k as nat)) % Self::modulus(),
    ;

    /// Right shift: divides by two to the `k`.
    fn shr_value(self, k: usize) -> (r: Self)
        requires
            pow2(k as nat) < Self::modulus(),
        ensures
            r.as_int() == self.as_int() / pow2(k as nat) as int,
    ;

    /// Strict comparison of element values.
    fn lt(self, other: Self) -> (r: bool)
        ensures
            r == (self.as_int() < other.as_int()),
    ;
}

/// An 8-bit three-channel color pixel.
#[derive(Debug, Clone, Copy, PartialEq, Eq, Structural)]
pub struct Rgb8 {
    pub r: u8,
    pub g: u8,
    pub b: u8,
}

/// A 16-bit three-channel color pixel.
#[derive(Debug, Clone, Copy, PartialEq, Eq, Structural)]
pub struct Rgb16 {
    pub r: u16,
    pub g: u16,
    pub b: u16,
}

/// An 8-bit four-channel color pixel.
#[derive(Debug, Clone, Copy, PartialEq, Eq, Structural)]
pub struct Rgba8 {
    pub r: u8,
    pub g: u8,
    pub b: u8,
    pub a: u8,
}

/// A 16-bit four-channel color pixel.
#[derive(Debug, Clone, Copy, PartialEq, Eq, Structural)]
pub struct Rgba16 {
    pub r: u16,
    pub g: u16,
    pub b: u16,
    pub a: u16,
}

impl Pixel for u8 {
    open spec fn spec_size() -> int {
        1
    }

    open spec fn spec_pixel_type() -> PixelType {
        PixelType::Gray8
    }

    fn size(&self) -> usize {
        1
    }

    fn pixel_type(&self) -> PixelType {
        PixelType::Gray8
    }
}

impl Pixel for u16 {
    open spec fn spec_size() -> int {
        2
    }

    open spec fn spec_pixel_type() -> PixelType {
        PixelType::Gray16
    }

    fn size(&self) -> usize {
        2
    }

    fn pixel_type(&self) -> PixelType {
        PixelType::Gray16
    }
}

impl Pixel for Rgb8 {
    open spec fn spec_size() -> int {
        3
    }

    open spec fn spec_pixel_type() -> PixelType {
        PixelType::Rgb8
    }

    fn size(&self) -> usize {
        3
    }

    fn pixel_type(&self) -> PixelType {
        PixelType::Rgb8
    }
}

impl Pixel for Rgb16 {
    open spec fn spec_size() -> int {
        6
    }

    open spec fn spec_pixel_type() -> PixelType {
        PixelType::Rgb16
    }

    fn size(&self) -> usize {
        6
    }

    fn pixel_type(&self) -> PixelType {
        PixelType::Rgb16
    }
}

impl Pixel for Rgba8 {
    open spec fn spec_size() -> int {
        4
    }

    open spec fn spec_pixel_type() -> PixelType {
        PixelType::Rgba8
    }

    fn size(&self) -> usize {
        4
    }

    fn pixel_type(&self) -> PixelType {
        PixelType::Rgba8
    }
}

impl Pixel for Rgba16 {
    open spec fn spec_size() -> int {
        8
    }

    open spec fn spec_pixel_type() -> PixelType {
        PixelType::Rgba16
    }

    fn size(&self) -> usize {
        8
    }

    fn pixel_type(&self) -> PixelType {
        PixelType::Rgba16
    }
}

impl MonoPixel for u8 {
    open spec fn as_int(self) -> int {
        self as int
    }

    open spec fn modulus() -> int {
        256
    }

    proof fn lemma_modulus() {
    }

    proof fn lemma_in_range(self) {
    }

    fn zero_value() -> u8 {
        0
    }

    fn one_value() -> u8 {
        1
    }

    fn min_value() -> u8 {
        0
    }

    fn max_value() -> u8 {
        255
    }

    fn to_i64(self) -> i64 {
        self as i64
    }

    fn from_i64(v: i64) -> u8 {
        (v % 256) as u8
    }

    fn add_wrap(self, other: u8) -> u8 {
        ((self as u16 + other as u16) % 256) as u8
    }

    fn sub_wrap(self, other: u8) -> (r: u8) {
        let d: i32 = self as i32 - other as i32 + 256;
        proof {
            vstd::arithmetic::div_mod::lemma_mod_add_multiples_vanish(
                self as int - other as int,
                256,
            );
        }
        (d % 256) as u8
    }

    fn mul_wrap(self, other: u8) -> (r: u8) {
        proof {
            assert((self as u32) * (other as u32) <= 255 * 255) by (nonlinear_arith)
                requires
                    self as u32 <= 255,
                    other as u32 <= 255,
            ;
        }
        ((self as u32 * other as u32) % 256) as u8
    }

    fn div_exact(self, other: u8) -> u8 {
        self / other
    }

    fn shl_value(self, k: usize) -> (r: u8) {
        proof {
            vstd::arithmetic::power2::lemma2_to64();
            lemma_pow2_exp_bound(k as nat, 8);
            vstd::bits::lemma_u32_shl_is_mul(1u32, k as u32);
        }
        let p: u32 = 1u32 << (k as u32);
        proof {
            assert((self as u32) * p <= 255 * 255) by (nonlinear_arith)
                requires
                    self as u32 <= 255,
                    p <= 255,
            ;
        }
        ((self as u32 * p) % 256) as u8
    }

    fn shr_value(self, k: usize) -> (r: u8) {
        proof {
            vstd::arithmetic::power2::lemma2_to64();
            lemma_pow2_exp_bound(k as nat, 8);
            vstd::bits::lemma_u8_shr_is_div(self, k as u8);
        }
        self >> (k as u8)
    }

    fn lt(self, other: u8) -> bool {
        self < other
    }
}

impl MonoPixel for u16 {
    open spec fn as_int(self) -> int {
        self as int
    }

    open spec fn modulus() -> int {
        65536
    }

    proof fn lemma_modulus() {
    }

    proof fn lemma_in_range(self) {
    }

    fn zero_value() -> u16 {
        0
    }

    fn one_value() -> u16 {
        1
    }

    fn min_value() -> u16 {
        0
    }

    fn max_value() -> u16 {
        65535
    }

    fn to_i64(self) -> i64 {
        self as i64
    }

    fn from_i64(v: i64) -> u16 {
        (v % 65536) as u16
    }

    fn add_wrap(self, other: u16) -> u16 {
        ((self as u32 + other as u32) % 65536) as u16
    }

    fn sub_wrap(self, other: u16) -> (r: u16) {
        let d: i32 = self as i32 - other as i32 + 65536;
        proof {
            vstd::arithmetic::div_mod::lemma_mod_add_multiples_vanish(
                self as int - other as int,
                65536,
            );
        }
        (d % 65536) as u16
    }

    fn mul_wrap(self, other: u16) -> (r: u16) {
        proof {
            assert((self as u64) * (other as u64) <= 65535 * 65535) by (nonlinear_arith)
                requires
                    self as u64 <= 65535,
                    other as u64 <= 65535,
            ;
        }
        ((self as u64 * other as u64) % 65536) as u16
    }

    fn div_exact(self, other: u16) -> u16 {
        self / other
    }

    fn shl_value(self, k: usize) -> (r: u16) {
        proof {
            vstd::arithmetic::power2::lemma2_to64();
            lemma_pow2_exp_bound(k as nat, 16);
            vstd::bits::lemma_u32_shl_is_mul(1u32, k as u32);
        }
        let p: u32 = 1u32 << (k as u32);
        proof {
            assert((self as u64) * (p as u64) <= 65535 * 65535) by (nonlinear_arith)
                requires
                    self as u64 <= 65535,
                    p as u64 <= 65535,
            ;
        }
        ((self as u64 * p as u64) % 65536) as u16
    }

    fn shr_value(self, k: usize) -> (r: u16) {
        proof {
            vstd::arithmetic::power2::lemma2_to64();
            lemma_pow2_exp_bound(k as nat, 16);
            vstd::bits::lemma_u16_shr_is_div(self, k as u16);
        }
        self >> (k as u16)
    }

    fn lt(self, other: u16) -> bool {
        self < other
    }
}

} // verus!
