//! Deterministic binary fixed-point arithmetic.
//!
//! Two representations are used throughout the crate:
//!
//! * [`Fixed`]: a scalar with a 32-bit two's-complement representation and
//!   16 fractional bits, so the represented value is `raw / 2^16`. This is
//!   the type of observations, bounds, epsilon, sensitivity and budget.
//! * [`WideFixed`]: a wide accumulator with a 64-bit representation and
//!   32 fractional bits (`raw / 2^32`), used for running sums and for noise
//!   computation, so that scalar values can be accumulated and combined
//!   without loss before the final narrowing step.
//!
//! Every operation is total and deterministic: multiplication and division
//! truncate toward zero (like Rust integer division), and operations whose
//! result would leave the representable range report that instead of
//! wrapping or panicking. Contracts are stated over the raw representation
//! (`x@` is the raw value of `x` as a mathematical integer).

use vstd::prelude::*;

verus! {

/// Raw representation of 1 in [`Fixed`] (2^16).
pub const FIXED_ONE_RAW: i32 = 65536;

/// Raw representation of 1 in [`WideFixed`] (2^32).
pub const WIDE_ONE_RAW: i64 = 4294967296;

/// Integer division truncating toward zero, for a positive divisor.
pub open spec fn tdiv(n: int, d: int) -> int
    recommends
        d > 0,
{
    if n >= 0 {
        n / d
    } else {
        -((-n) / d)
    }
}

/// Integer division truncating toward zero, for any nonzero divisor.
pub open spec fn sdiv(n: int, d: int) -> int
    recommends
        d != 0,
{
    if d > 0 {
        tdiv(n, d)
    } else {
        tdiv(-n, -d)
    }
}

/// Raw value of the product of two fixed-point values whose unit has raw
/// representation `one`, truncated toward zero.
pub open spec fn scaled_mul(a: int, b: int, one: int) -> int {
    tdiv(a * b, one)
}

/// Raw value of the quotient of two fixed-point values whose unit has raw
/// representation `one`, truncated toward zero.
pub open spec fn scaled_div(a: int, b: int, one: int) -> int {
    sdiv(a * one, b)
}

/// True when `v` fits the 32-bit raw representation of [`Fixed`].
pub open spec fn fits_fixed(v: int) -> bool {
    i32::MIN <= v <= i32::MAX
}

/// True when `v` fits the 64-bit raw representation of [`WideFixed`].
pub open spec fn fits_wide(v: int) -> bool {
    i64::MIN <= v <= i64::MAX
}

/// An exact multiple divides back to the original factor.
pub proof fn lemma_tdiv_exact(n: int, d: int)
    requires
        d > 0,
    ensures
        tdiv(n * d, d) == n,
{
    if n >= 0 {
        assert(n * d >= 0 && (n * d) / d == n) by (nonlinear_arith)
            requires
                d > 0,
                n >= 0,
        ;
    } else {
        assert(n * d < 0 && -(n * d) == (-n) * d) by (nonlinear_arith)
            requires
                d > 0,
                n < 0,
        ;
        assert(((-n) * d) / d == -n) by (nonlinear_arith)
            requires
                d > 0,
                -n >= 0,
        ;
    }
}

/// Truncating division toward zero on 64-bit integers.
fn tdiv_i64(n: i64, d: i64) -> (r: i64)
    requires
        d > 0,
        n != i64::MIN,
    ensures
        r as int == tdiv(n as int, d as int),
{
    if n >= 0 {
        let q: u64 = (n as u64) / (d as u64);
        q as i64
    } else {
        let q: u64 = ((-n) as u64) / (d as u64);
        -(q as i64)
    }
}

/// Truncating division toward zero on 128-bit integers.
fn tdiv_i128(n: i128, d: i128) -> (r: i128)
    requires
        d > 0,
        n != i128::MIN,
    ensures
        r as int == tdiv(n as int, d as int),
{
    if n >= 0 {
        let q: u128 = (n as u128) / (d as u128);
        q as i128
    } else {
        let q: u128 = ((-n) as u128) / (d as u128);
        -(q as i128)
    }
}

/// A scalar fixed-point value: 32-bit representation, 16 fractional bits.
#[derive(Clone, Copy, Debug, PartialEq, Eq, Structural)]
pub struct Fixed {
    /// Two's-complement representation; the value is `raw / 2^16`.
    pub raw: i32,
}

impl View for Fixed {
    type V = int;

    open spec fn view(&self) -> int {
        self.raw as int
    }
}

impl Fixed {
    /// The value whose representation is `raw`.
    pub fn from_raw(raw: i32) -> (r: Fixed)
        ensures
            r@ == raw as int,
    {
        Fixed { raw }
    }

    /// The raw representation.
    pub fn raw(&self) -> (r: i32)
        ensures
            r as int == self@,
    {
        self.raw
    }

    /// Zero.
    pub fn zero() -> (r: Fixed)
        ensures
            r@ == 0,
    {
        Fixed { raw: 0 }
    }

    /// The integer `n` as a fixed-point value; `n` must fit the 16 integer
    /// bits of the representation.
    pub fn from_int(n: i32) -> (r: Fixed)
        requires
            -32768 <= n <= 32767,
        ensures
            r@ == n * (FIXED_ONE_RAW as int),
    {
        Fixed { raw: n * 65536 }
    }

    /// The least representable value.
    pub fn min_value() -> (r: Fixed)
        ensures
            r@ == i32::MIN,
    {
        Fixed { raw: i32::MIN }
    }

    /// The greatest representable value.
    pub fn max_value() -> (r: Fixed)
        ensures
            r@ == i32::MAX,
    {
        Fixed { raw: i32::MAX }
    }

    /// `self < other` on the represented values.
    pub fn lt(&self, other: &Fixed) -> (r: bool)
        ensures
            r == (self@ < other@),
    {
        self.raw < other.raw
    }

    /// `self <= other` on the represented values.
    pub fn le(&self, other: &Fixed) -> (r: bool)
        ensures
            r == (self@ <= other@),
    {
        self.raw <= other.raw
    }

    /// Sum, or `None` when it leaves the representable range.
    pub fn checked_add(&self, other: &Fixed) -> (r: Option<Fixed>)
        ensures
            r is Some <==> fits_fixed(self@ + other@),
            r matches Some(v) ==> v@ == self@ + other@,
    {
        let s: i64 = self.raw as i64 + other.raw as i64;
        if s >= i32::MIN as i64 && s <= i32::MAX as i64 {
            Some(Fixed { raw: s as i32 })
        } else {
            None
        }
    }

    /// Difference, or `None` when it leaves the representable range.
    pub fn checked_sub(&self, other: &Fixed) -> (r: Option<Fixed>)
        ensures
            r is Some <==> fits_fixed(self@ - other@),
            r matches Some(v) ==> v@ == self@ - other@,
    {
        let s: i64 = self.raw as i64 - other.raw as i64;
        if s >= i32::MIN as i64 && s <= i32::MAX as i64 {
            Some(Fixed { raw: s as i32 })
        } else {
            None
        }
    }

    /// Negation, or `None` for the one value whose negation is not
    /// representable.
    pub fn checked_neg(&self) -> (r: Option<Fixed>)
        ensures
            r is Some <==> fits_fixed(-self@),
            r matches Some(v) ==> v@ == -self@,
    {
        if self.raw == i32::MIN {
            None
        } else {
            Some(Fixed { raw: -self.raw })
        }
    }

    /// Product truncated toward zero, or `None` when it leaves the
    /// representable range.
    pub fn checked_mul(&self, other: &Fixed) -> (r: Option<Fixed>)
        ensures
            r is Some <==> fits_fixed(scaled_mul(self@, other@, FIXED_ONE_RAW as int)),
            r matches Some(v) ==> v@ == scaled_mul(self@, other@, FIXED_ONE_RAW as int),
    {
        let a: i64 = self.raw as i64;
        let b: i64 = other.raw as i64;
        proof {
            assert(-0x4000_0000_0000_0000 <= a * b <= 0x4000_0000_0000_0000)
                by (nonlinear_arith)
                requires
                    -0x8000_0000 <= a <= 0x7fff_ffff,
                    -0x8000_0000 <= b <= 0x7fff_ffff,
            ;
        }
        let p: i64 = a * b;
        let q: i64 = tdiv_i64(p, 65536);
        if q >= i32::MIN as i64 && q <= i32::MAX as i64 {
            Some(Fixed { raw: q as i32 })
        } else {
            None
        }
    }

    /// Quotient truncated toward zero, or `None` when it leaves the
    /// representable range. The divisor must be nonzero.
    pub fn checked_div(&self, other: &Fixed) -> (r: Option<Fixed>)
        requires
            other@ != 0,
        ensures
            r is Some <==> fits_fixed(scaled_div(self@, other@, FIXED_ONE_RAW as int)),
            r matches Some(v) ==> v@ == scaled_div(self@, other@, FIXED_ONE_RAW as int),
    {
        let n: i64 = self.raw as i64 * 65536;
        let d: i64 = other.raw as i64;
        let (n2, d2): (i64, i64) = if d < 0 { (-n, -d) } else { (n, d) };
        let q: i64 = tdiv_i64(n2, d2);
        if q >= i32::MIN as i64 && q <= i32::MAX as i64 {
            Some(Fixed { raw: q as i32 })
        } else {
            None
        }
    }

    /// This value in the wide representation.
    pub open spec fn widened(self) -> WideFixed {
        WideFixed { raw: (self@ * 0x10000) as i64 }
    }

    /// The same value in the wide representation; always exact.
    pub fn widen(&self) -> (r: WideFixed)
        ensures
            r == self.widened(),
            r@ == self@ * 0x10000,
    {
        WideFixed { raw: self.raw as i64 * 65536 }
    }
}

/// A wide fixed-point value: 64-bit representation, 32 fractional bits.
#[derive(Clone, Copy, Debug, PartialEq, Eq, Structural)]
pub struct WideFixed {
    /// Two's-complement representation; the value is `raw / 2^32`.
    pub raw: i64,
}

impl View for WideFixed {
    type V = int;

    open spec fn view(&self) -> int {
        self.raw as int
    }
}

impl WideFixed {
    /// The value whose representation is `raw`.
    pub fn from_raw(raw: i64) -> (r: WideFixed)
        ensures
            r@ == raw as int,
    {
        WideFixed { raw }
    }

    /// The raw representation.
    pub fn raw(&self) -> (r: i64)
        ensures
            r as int == self@,
    {
        self.raw
    }

    /// Zero.
    pub fn zero() -> (r: WideFixed)
        ensures
            r@ == 0,
    {
        WideFixed { raw: 0 }
    }

    /// The count `n` as a wide fixed-point value, or `None` when `n` does
    /// not fit the 32 integer bits.
    pub fn from_u32(n: u32) -> (r: Option<WideFixed>)
        ensures
            r is Some <==> n * (WIDE_ONE_RAW as int) <= i64::MAX,
            r matches Some(v) ==> v@ == n * (WIDE_ONE_RAW as int),
    {
        let w: i128 = (n as i128) * 4294967296i128;
        if w <= i64::MAX as i128 {
            Some(WideFixed { raw: w as i64 })
        } else {
            None
        }
    }

    /// `self < other` on the represented values.
    pub fn lt(&self, other: &WideFixed) -> (r: bool)
        ensures
            r == (self@ < other@),
    {
        self.raw < other.raw
    }

    /// `self <= other` on the represented values.
    pub fn le(&self, other: &WideFixed) -> (r: bool)
        ensures
            r == (self@ <= other@),
    {
        self.raw <= other.raw
    }

    /// Sum, or `None` when it leaves the representable range.
    pub fn checked_add(&self, other: &WideFixed) -> (r: Option<WideFixed>)
        ensures
            r is Some <==> fits_wide(self@ + other@),
            r matches Some(v) ==> v@ == self@ + other@,
    {
        let s: i128 = self.raw as i128 + other.raw as i128;
        if s >= i64::MIN as i128 && s <= i64::MAX as i128 {
            Some(WideFixed { raw: s as i64 })
        } else {
            None
        }
    }

    /// Difference, or `None` when it leaves the representable range.
    pub fn checked_sub(&self, other: &WideFixed) -> (r: Option<WideFixed>)
        ensures
            r is Some <==> fits_wide(self@ - other@),
            r matches Some(v) ==> v@ == self@ - other@,
    {
        let s: i128 = self.raw as i128 - other.raw as i128;
        if s >= i64::MIN as i128 && s <= i64::MAX as i128 {
            Some(WideFixed { raw: s as i64 })
        } else {
            None
        }
    }

    /// Negation, or `None` for the one value whose negation is not
    /// representable.
    pub fn checked_neg(&self) -> (r: Option<WideFixed>)
        ensures
            r is Some <==> fits_wide(-self@),
            r matches Some(v) ==> v@ == -self@,
    {
        if self.raw == i64::MIN {
            None
        } else {
            Some(WideFixed { raw: -self.raw })
        }
    }

    /// Product truncated toward zero, or `None` when it leaves the
    /// representable range.
    pub fn checked_mul(&self, other: &WideFixed) -> (r: Option<WideFixed>)
        ensures
            r is Some <==> fits_wide(scaled_mul(self@, other@, WIDE_ONE_RAW as int)),
            r matches Some(v) ==> v@ == scaled_mul(self@, other@, WIDE_ONE_RAW as int),
    {
        let a: i128 = self.raw as i128;
        let b: i128 = other.raw as i128;
        proof {
            assert(-0x4000_0000_0000_0000_0000_0000_0000_0000 <= a * b
                <= 0x4000_0000_0000_0000_0000_0000_0000_0000)
                by (nonlinear_arith)
                requires
                    -0x8000_0000_0000_0000 <= a <= 0x7fff_ffff_ffff_ffff,
                    -0x8000_0000_0000_0000 <= b <= 0x7fff_ffff_ffff_ffff,
            ;
        }
        let p: i128 = a * b;
        let q: i128 = tdiv_i128(p, 4294967296i128);
        if q >= i64::MIN as i128 && q <= i64::MAX as i128 {
            Some(WideFixed { raw: q as i64 })
        } else {
            None
        }
    }

    /// Quotient truncated toward zero, or `None` when it leaves the
    /// representable range. The divisor must be nonzero.
    pub fn checked_div(&self, other: &WideFixed) -> (r: Option<WideFixed>)
        requires
            other@ != 0,
        ensures
            r is Some <==> fits_wide(scaled_div(self@, other@, WIDE_ONE_RAW as int)),
            r matches Some(v) ==> v@ == scaled_div(self@, other@, WIDE_ONE_RAW as int),
    {
        let n: i128 = self.raw as i128 * 4294967296i128;
        let d: i128 = other.raw as i128;
        let (n2, d2): (i128, i128) = if d < 0 { (-n, -d) } else { (n, d) };
        let q: i128 = tdiv_i128(n2, d2);
        if q >= i64::MIN as i128 && q <= i64::MAX as i128 {
            Some(WideFixed { raw: q as i64 })
        } else {
            None
        }
    }

    /// The raw scalar representation of this value truncated toward zero,
    /// whether or not it fits a [`Fixed`].
    pub open spec fn narrowed(self) -> int {
        tdiv(self@, 0x10000)
    }

    /// The scalar whose widening is exactly this value, if there is one.
    pub open spec fn exact_scalar(self) -> Option<Fixed> {
        if fits_fixed(self.narrowed()) && self.narrowed() * 0x10000 == self@ {
            Some(Fixed { raw: self.narrowed() as i32 })
        } else {
            None
        }
    }

    /// The scalar whose widening is exactly this value; `None` when the
    /// value carries fractional bits below the scalar's precision or leaves
    /// the scalar range.
    pub fn exact_narrow(&self) -> (r: Option<Fixed>)
        ensures
            r == self.exact_scalar(),
    {
        match self.narrow() {
            Some(f) => {
                let back = f.widen();
                if back.raw == self.raw {
                    Some(f)
                } else {
                    None
                }
            },
            None => None,
        }
    }

    /// The same value as a scalar, truncated toward zero to 16 fractional
    /// bits; `None` when it leaves the scalar range.
    pub fn narrow(&self) -> (r: Option<Fixed>)
        ensures
            r is Some <==> fits_fixed(self.narrowed()),
            r matches Some(v) ==> v@ == self.narrowed(),
    {
        if self.raw == i64::MIN {
            proof {
                assert(tdiv(i64::MIN as int, 0x10000) == -0x8000_0000_0000);
            }
            None
        } else {
            let q: i64 = tdiv_i64(self.raw, 65536);
            if q >= i32::MIN as i64 && q <= i32::MAX as i64 {
                Some(Fixed { raw: q as i32 })
            } else {
                None
            }
        }
    }
}

} // verus!
