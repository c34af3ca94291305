//! Saturating decimal fixed-point numbers with six fractional digits.

use vstd::prelude::*;

verus! {

/// Raw units per whole: a `Fixed` with `raw == SCALE` stands for 1.
pub const SCALE: i64 = 1_000_000;

/// `v` clamped into the range of `i64`.
pub open spec fn sat64(v: int) -> int {
    if v < i64::MIN as int {
        i64::MIN as int
    } else if v > i64::MAX as int {
        i64::MAX as int
    } else {
        v
    }
}

/// Quotient of `a` by a positive `b`, rounded toward zero.
pub open spec fn div_trunc(a: int, b: int) -> int
    recommends
        b > 0,
{
    if a >= 0 {
        a / b
    } else {
        -((-a) / b)
    }
}

/// Sum of two raw values, saturated.
pub open spec fn fx_add(a: int, b: int) -> int {
    sat64(a + b)
}

/// Difference of two raw values, saturated.
pub open spec fn fx_sub(a: int, b: int) -> int {
    sat64(a - b)
}

/// Product of two raw values, rescaled, rounded toward zero and saturated.
#[verifier::opaque]
pub open spec fn fx_mul(a: int, b: int) -> int {
    sat64(div_trunc(a * b, SCALE as int))
}

/// Quotient of two raw values, rescaled, rounded toward zero and saturated.
/// Dividing by zero saturates in the direction of the dividend's sign and
/// gives zero for a zero dividend.
#[verifier::opaque]
pub open spec fn fx_div(a: int, b: int) -> int {
    if b == 0 {
        if a > 0 {
            i64::MAX as int
        } else if a < 0 {
            i64::MIN as int
        } else {
            0
        }
    } else if b > 0 {
        sat64(div_trunc(a * SCALE, b))
    } else {
        sat64(div_trunc(-(a * SCALE), -b))
    }
}

/// Remainder of the division of `a` by `b` that rounds toward zero, with the
/// sign of `a`; zero for a zero divisor.
#[verifier::opaque]
pub open spec fn fx_rem(a: int, b: int) -> int {
    let m = if b < 0 {
        -b
    } else {
        b
    };
    if m == 0 {
        0
    } else if a >= 0 {
        a % m
    } else {
        -((-a) % m)
    }
}

/// `r` is the integer square root of `n`.
pub open spec fn is_isqrt(n: int, r: int) -> bool {
    r >= 0 && r * r <= n && n < (r + 1) * (r + 1)
}

/// The integer square root of a non-negative `n`.
pub open spec fn isqrt(n: int) -> int {
    choose|r: int| is_isqrt(n, r)
}

/// Square root of a raw value, rounded down; zero for anything not positive.
#[verifier::opaque]
pub open spec fn fx_sqrt(a: int) -> int {
    if a <= 0 {
        0
    } else {
        isqrt(a * SCALE)
    }
}

/// `v` clamped into `lo ..= hi`.
pub open spec fn clamp_int(v: int, lo: int, hi: int) -> int {
    if v < lo {
        lo
    } else if v > hi {
        hi
    } else {
        v
    }
}

/// Two integer square roots of one number are the same.
pub proof fn lemma_isqrt_unique(n: int, r1: int, r2: int)
    requires
        is_isqrt(n, r1),
        is_isqrt(n, r2),
    ensures
        r1 == r2,
{
    if r1 < r2 {
        assert((r1 + 1) * (r1 + 1) <= r2 * r2) by (nonlinear_arith)
            requires
                0 <= r1,
                r1 + 1 <= r2,
        ;
    } else if r2 < r1 {
        assert((r2 + 1) * (r2 + 1) <= r1 * r1) by (nonlinear_arith)
            requires
                0 <= r2,
                r2 + 1 <= r1,
        ;
    }
}

/// A witness of the integer square root is the integer square root.
pub proof fn lemma_isqrt_is(n: int, r: int)
    requires
        is_isqrt(n, r),
    ensures
        isqrt(n) == r,
{
    lemma_isqrt_unique(n, r, isqrt(n));
}

/// The integer square root does not decrease when its argument grows.
pub proof fn lemma_isqrt_at_least(n: int, r: int, k: int)
    requires
        is_isqrt(n, r),
        0 <= k,
        k * k <= n,
    ensures
        k <= r,
{
    if r < k {
        assert((r + 1) * (r + 1) <= k * k) by (nonlinear_arith)
            requires
                0 <= r,
                r + 1 <= k,
        ;
    }
}

/// Every non-negative number has an integer square root.
pub proof fn lemma_isqrt_exists(n: int)
    requires
        n >= 0,
    ensures
        is_isqrt(n, isqrt(n)),
    decreases n,
{
    if n == 0 {
        assert(is_isqrt(0, 0));
    } else {
        lemma_isqrt_exists(n - 1);
        let r = isqrt(n - 1);
        if n < (r + 1) * (r + 1) {
            assert(is_isqrt(n, r));
        } else {
            assert(n < (r + 2) * (r + 2)) by (nonlinear_arith)
                requires
                    n - 1 < (r + 1) * (r + 1),
                    r >= 0,
            ;
            assert(is_isqrt(n, r + 1));
        }
    }
}

/// A quotient is at least `k` where the dividend is at least `k` divisors.
pub proof fn lemma_div_trunc_at_least(a: int, b: int, k: int)
    by (nonlinear_arith)
    requires
        b > 0,
        k >= 0,
        k * b <= a,
    ensures
        div_trunc(a, b) >= k,
{
}

/// A square root is at least `k` where its argument is at least `k` squared.
pub proof fn lemma_fx_sqrt_at_least(v: int, k: int)
    requires
        k >= 0,
        v > 0,
        k * k <= v * SCALE,
    ensures
        fx_sqrt(v) >= k,
{
    reveal(fx_sqrt);
    assert(v * SCALE >= 0) by (nonlinear_arith)
        requires
            v > 0,
            SCALE == 1_000_000,
    ;
    lemma_isqrt_exists(v * SCALE);
    lemma_isqrt_at_least(v * SCALE, isqrt(v * SCALE), k);
}

/// The square root of a raw value is a raw value again.
pub proof fn lemma_fx_sqrt_fits(v: int)
    requires
        v <= i64::MAX,
    ensures
        0 <= fx_sqrt(v) < 0x1_0000_0000_0000,
{
    reveal(fx_sqrt);
    if v > 0 {
        assert(0 <= v * SCALE < 0x1_0000_0000_0000_0000_0000_0000) by (nonlinear_arith)
            requires
                0 < v <= 0x7fff_ffff_ffff_ffff,
                SCALE == 1_000_000,
        ;
        lemma_isqrt_exists(v * SCALE);
        let r = isqrt(v * SCALE);
        if r >= 0x1_0000_0000_0000 {
            assert(r * r >= 0x1_0000_0000_0000_0000_0000_0000) by (nonlinear_arith)
                requires
                    r >= 0x1_0000_0000_0000,
            ;
        }
    }
}

/// A quotient of raw values is a raw value again.
pub proof fn lemma_fx_div_fits(a: int, b: int)
    ensures
        i64::MIN <= fx_div(a, b) <= i64::MAX,
{
    reveal(fx_div);
}

/// The rescaled square of a raw value is never negative.
pub proof fn lemma_fx_square_nonnegative(a: int)
    ensures
        fx_mul(a, a) >= 0,
{
    reveal(fx_mul);
    assert(a * a >= 0) by (nonlinear_arith);
    assert((a * a) / (SCALE as int) >= 0) by (nonlinear_arith)
        requires
            a * a >= 0,
            SCALE == 1_000_000,
    ;
}

/// A number `raw / 1_000_000`.
#[derive(Clone, Copy, Debug, PartialEq, Eq, Structural)]
pub struct Fixed {
    pub raw: i64,
}

fn sat_from_i128(v: i128) -> (r: i64)
    ensures
        r as int == sat64(v as int),
{
    if v < i64::MIN as i128 {
        i64::MIN
    } else if v > i64::MAX as i128 {
        i64::MAX
    } else {
        v as i64
    }
}

fn div_trunc_i128(a: i128, b: i128) -> (q: i128)
    requires
        b > 0,
        a > i128::MIN,
    ensures
        q as int == div_trunc(a as int, b as int),
{
    if a >= 0 {
        a / b
    } else {
        -((-a) / b)
    }
}

proof fn lemma_product_fits(a: int, b: int)
    by (nonlinear_arith)
    requires
        -0x8000_0000_0000_0000 <= a <= 0x8000_0000_0000_0000,
        -0x8000_0000_0000_0000 <= b <= 0x8000_0000_0000_0000,
    ensures
        -0x4000_0000_0000_0000_0000_0000_0000_0000 <= a * b
            <= 0x4000_0000_0000_0000_0000_0000_0000_0000,
{
}

fn isqrt_u128(n: u128) -> (r: u128)
    requires
        n < 0x1_0000_0000_0000_0000_0000_0000,
    ensures
        is_isqrt(n as int, r as int),
        r < 0x1_0000_0000_0000,
{
    let mut lo: u128 = 0;
    let mut hi: u128 = 0x1_0000_0000_0000;
    assert(0x1_0000_0000_0000u128 * 0x1_0000_0000_0000u128 == 0x1_0000_0000_0000_0000_0000_0000u128)
        by (nonlinear_arith);
    while hi - lo > 1
        invariant
            lo < hi <= 0x1_0000_0000_0000,
            lo * lo <= n,
            n < hi * hi,
        decreases hi - lo,
    {
        let mid: u128 = lo + (hi - lo) / 2;
        assert(mid * mid <= 0x1_0000_0000_0000 * 0x1_0000_0000_0000) by (nonlinear_arith)
            requires
                mid <= 0x1_0000_0000_0000,
        ;
        if mid * mid <= n {
            lo = mid;
        } else {
            hi = mid;
        }
    }
    lo
}

impl Fixed {
    /// The number zero.
    pub open spec fn spec_zero() -> Fixed {
        Fixed { raw: 0 }
    }

    #[verifier::when_used_as_spec(spec_zero)]
    pub fn zero() -> (r: Fixed)
        ensures
            r == Fixed::spec_zero(),
    {
        Fixed { raw: 0 }
    }

    /// The number one.
    pub open spec fn spec_one() -> Fixed {
        Fixed { raw: SCALE }
    }

    #[verifier::when_used_as_spec(spec_one)]
    pub fn one() -> (r: Fixed)
        ensures
            r == Fixed::spec_one(),
    {
        Fixed { raw: SCALE }
    }

    /// The number `raw / 1_000_000`.
    pub open spec fn spec_millionths(raw: i64) -> Fixed {
        Fixed { raw }
    }

    #[verifier::when_used_as_spec(spec_millionths)]
    pub fn millionths(raw: i64) -> (r: Fixed)
        ensures
            r == Fixed::spec_millionths(raw),
    {
        Fixed { raw }
    }

    /// The whole number `n`, saturated.
    pub open spec fn spec_from_int(n: i64) -> Fixed {
        Fixed { raw: sat64(n * SCALE) as i64 }
    }

    #[verifier::when_used_as_spec(spec_from_int)]
    pub fn from_int(n: i64) -> (r: Fixed)
        ensures
            r == Fixed::spec_from_int(n),
    {
        proof {
            lemma_product_fits(n as int, SCALE as int);
        }
        let wide: i128 = (n as i128) * (SCALE as i128);
        Fixed { raw: sat_from_i128(wide) }
    }

    /// The ratio `num / den`, by the rule of `fx_div` on whole numbers.
    pub open spec fn spec_ratio(num: i64, den: i64) -> Fixed {
        Fixed { raw: fx_div(num as int, den as int) as i64 }
    }

    #[verifier::when_used_as_spec(spec_ratio)]
    pub fn ratio(num: i64, den: i64) -> (r: Fixed)
        ensures
            r == Fixed::spec_ratio(num, den),
    {
        Fixed { raw: num }.over(Fixed { raw: den })
    }

    pub open spec fn spec_plus(self, rhs: Fixed) -> Fixed {
        Fixed { raw: fx_add(self.raw as int, rhs.raw as int) as i64 }
    }

    /// Saturating sum.
    #[verifier::when_used_as_spec(spec_plus)]
    pub fn plus(self, rhs: Fixed) -> (r: Fixed)
        ensures
            r == self.spec_plus(rhs),
    {
        let wide: i128 = (self.raw as i128) + (rhs.raw as i128);
        Fixed { raw: sat_from_i128(wide) }
    }

    pub open spec fn spec_minus(self, rhs: Fixed) -> Fixed {
        Fixed { raw: fx_sub(self.raw as int, rhs.raw as int) as i64 }
    }

    /// Saturating difference.
    #[verifier::when_used_as_spec(spec_minus)]
    pub fn minus(self, rhs: Fixed) -> (r: Fixed)
        ensures
            r == self.spec_minus(rhs),
    {
        let wide: i128 = (self.raw as i128) - (rhs.raw as i128);
        Fixed { raw: sat_from_i128(wide) }
    }

    pub open spec fn spec_times(self, rhs: Fixed) -> Fixed {
        Fixed { raw: fx_mul(self.raw as int, rhs.raw as int) as i64 }
    }

    /// Saturating product, rounded toward zero.
    #[verifier::when_used_as_spec(spec_times)]
    pub fn times(self, rhs: Fixed) -> (r: Fixed)
        ensures
            r == self.spec_times(rhs),
    {
        proof {
            reveal(fx_mul);
        }
        proof {
            lemma_product_fits(self.raw as int, rhs.raw as int);
        }
        let wide: i128 = (self.raw as i128) * (rhs.raw as i128);
        let q: i128 = div_trunc_i128(wide, SCALE as i128);
        Fixed { raw: sat_from_i128(q) }
    }

    pub open spec fn spec_over(self, rhs: Fixed) -> Fixed {
        Fixed { raw: fx_div(self.raw as int, rhs.raw as int) as i64 }
    }

    /// Saturating quotient, rounded toward zero; total on a zero divisor.
    #[verifier::when_used_as_spec(spec_over)]
    pub fn over(self, rhs: Fixed) -> (r: Fixed)
        ensures
            r == self.spec_over(rhs),
    {
        proof {
            reveal(fx_div);
        }
        if rhs.raw == 0 {
            if self.raw > 0 {
                Fixed { raw: i64::MAX }
            } else if self.raw < 0 {
                Fixed { raw: i64::MIN }
            } else {
                Fixed { raw: 0 }
            }
        } else {
            proof {
                lemma_product_fits(self.raw as int, SCALE as int);
            }
            let wide: i128 = (self.raw as i128) * (SCALE as i128);
            let q: i128 = if rhs.raw > 0 {
                div_trunc_i128(wide, rhs.raw as i128)
            } else {
                div_trunc_i128(-wide, -(rhs.raw as i128))
            };
            Fixed { raw: sat_from_i128(q) }
        }
    }

    pub open spec fn spec_remainder(self, rhs: Fixed) -> Fixed {
        Fixed { raw: fx_rem(self.raw as int, rhs.raw as int) as i64 }
    }

    /// Remainder of the division that rounds toward zero.
    #[verifier::when_used_as_spec(spec_remainder)]
    pub fn remainder(self, rhs: Fixed) -> (r: Fixed)
        ensures
            r == self.spec_remainder(rhs),
    {
        proof {
            reveal(fx_rem);
        }
        let a: i128 = self.raw as i128;
        let b: i128 = rhs.raw as i128;
        let m: i128 = if b < 0 {
            -b
        } else {
            b
        };
        if m == 0 {
            Fixed { raw: 0 }
        } else if a >= 0 {
            Fixed { raw: (a % m) as i64 }
        } else {
            Fixed { raw: (-((-a) % m)) as i64 }
        }
    }

    pub open spec fn spec_negated(self) -> Fixed {
        Fixed { raw: sat64(-(self.raw as int)) as i64 }
    }

    /// Saturating negation.
    #[verifier::when_used_as_spec(spec_negated)]
    pub fn negated(self) -> (r: Fixed)
        ensures
            r == self.spec_negated(),
    {
        Fixed { raw: sat_from_i128(-(self.raw as i128)) }
    }

    pub open spec fn spec_magnitude(self) -> Fixed {
        if self.raw < 0 {
            self.spec_negated()
        } else {
            self
        }
    }

    /// Saturating absolute value.
    #[verifier::when_used_as_spec(spec_magnitude)]
    pub fn magnitude(self) -> (r: Fixed)
        ensures
            r == self.spec_magnitude(),
    {
        if self.raw < 0 {
            self.negated()
        } else {
            self
        }
    }

    pub open spec fn spec_root(self) -> Fixed {
        Fixed { raw: fx_sqrt(self.raw as int) as i64 }
    }

    /// Square root rounded down; zero for anything not positive.
    #[verifier::when_used_as_spec(spec_root)]
    pub fn root(self) -> (r: Fixed)
        ensures
            r == self.spec_root(),
    {
        proof {
            reveal(fx_sqrt);
        }
        if self.raw <= 0 {
            Fixed { raw: 0 }
        } else {
            proof {
                lemma_product_fits(self.raw as int, SCALE as int);
                assert(self.raw * SCALE < 0x1_0000_0000_0000_0000_0000_0000) by (nonlinear_arith)
                    requires
                        0 < self.raw <= 0x7fff_ffff_ffff_ffff,
                        SCALE == 1_000_000,
                ;
            }
            let wide: u128 = (self.raw as u128) * (SCALE as u128);
            let r: u128 = isqrt_u128(wide);
            proof {
                lemma_isqrt_is(wide as int, r as int);
            }
            Fixed { raw: r as i64 }
        }
    }

    pub open spec fn spec_lower(self, rhs: Fixed) -> Fixed {
        if rhs.raw < self.raw {
            rhs
        } else {
            self
        }
    }

    /// The smaller of two numbers.
    #[verifier::when_used_as_spec(spec_lower)]
    pub fn lower(self, rhs: Fixed) -> (r: Fixed)
        ensures
            r == self.spec_lower(rhs),
    {
        if rhs.raw < self.raw {
            rhs
        } else {
            self
        }
    }

    pub open spec fn spec_upper(self, rhs: Fixed) -> Fixed {
        if rhs.raw > self.raw {
            rhs
        } else {
            self
        }
    }

    /// The larger of two numbers.
    #[verifier::when_used_as_spec(spec_upper)]
    pub fn upper(self, rhs: Fixed) -> (r: Fixed)
        ensures
            r == self.spec_upper(rhs),
    {
        if rhs.raw > self.raw {
            rhs
        } else {
            self
        }
    }

    pub open spec fn spec_unit(self) -> Fixed {
        Fixed { raw: clamp_int(self.raw as int, 0, SCALE as int) as i64 }
    }

    /// The number clamped into `0 ..= 1`.
    #[verifier::when_used_as_spec(spec_unit)]
    pub fn unit(self) -> (r: Fixed)
        ensures
            r == self.spec_unit(),
    {
        if self.raw < 0 {
            Fixed { raw: 0 }
        } else if self.raw > SCALE {
            Fixed { raw: SCALE }
        } else {
            self
        }
    }

    pub open spec fn spec_whole(self) -> i64 {
        div_trunc(self.raw as int, SCALE as int) as i64
    }

    /// The whole part, rounded toward zero.
    #[verifier::when_used_as_spec(spec_whole)]
    pub fn whole(self) -> (r: i64)
        ensures
            r == self.spec_whole(),
    {
        if self.raw >= 0 {
            self.raw / SCALE
        } else if self.raw == i64::MIN {
            -9_223_372_036_854
        } else {
            -((-self.raw) / SCALE)
        }
    }

    pub open spec fn spec_nearest(self) -> i64 {
        if self.raw >= 0 {
            ((self.raw + SCALE / 2) / (SCALE as int)) as i64
        } else {
            (-((-self.raw + SCALE / 2) / (SCALE as int))) as i64
        }
    }

    /// The nearest whole number, halves rounded away from zero.
    #[verifier::when_used_as_spec(spec_nearest)]
    pub fn nearest(self) -> (r: i64)
        ensures
            r == self.spec_nearest(),
    {
        let wide: i128 = self.raw as i128;
        if wide >= 0 {
            ((wide + 500_000) / 1_000_000) as i64
        } else {
            (-((-wide + 500_000) / 1_000_000)) as i64
        }
    }

    pub open spec fn spec_ceiling(self) -> i64 {
        if self.raw > 0 {
            ((self.raw + SCALE - 1) / (SCALE as int)) as i64
        } else {
            self.spec_whole()
        }
    }

    /// The least whole number that is not below this one.
    #[verifier::when_used_as_spec(spec_ceiling)]
    pub fn ceiling(self) -> (r: i64)
        ensures
            r == self.spec_ceiling(),
    {
        if self.raw > 0 {
            (((self.raw as i128) + 999_999) / 1_000_000) as i64
        } else {
            self.whole()
        }
    }

    pub open spec fn spec_channel(self) -> u8 {
        clamp_int(self.spec_whole() as int, 0, 255) as u8
    }

    /// The whole part clamped into the range of a colour channel.
    #[verifier::when_used_as_spec(spec_channel)]
    pub fn channel(self) -> (r: u8)
        ensures
            r == self.spec_channel(),
    {
        let w: i64 = self.whole();
        if w < 0 {
            0
        } else if w > 255 {
            255
        } else {
            w as u8
        }
    }

    pub open spec fn spec_pixels(self) -> i32 {
        clamp_int(self.spec_whole() as int, i32::MIN as int, i32::MAX as int) as i32
    }

    /// The whole part clamped into the range of a signed pixel coordinate.
    #[verifier::when_used_as_spec(spec_pixels)]
    pub fn pixels(self) -> (r: i32)
        ensures
            r == self.spec_pixels(),
    {
        let w: i64 = self.whole();
        if w < i32::MIN as i64 {
            i32::MIN
        } else if w > i32::MAX as i64 {
            i32::MAX
        } else {
            w as i32
        }
    }

    pub open spec fn spec_extent(self) -> u32 {
        clamp_int(self.spec_whole() as int, 0, u32::MAX as int) as u32
    }

    /// The whole part clamped into the range of an unsigned image extent.
    #[verifier::when_used_as_spec(spec_extent)]
    pub fn extent(self) -> (r: u32)
        ensures
            r == self.spec_extent(),
    {
        let w: i64 = self.whole();
        if w < 0 {
            0
        } else if w > u32::MAX as i64 {
            u32::MAX
        } else {
            w as u32
        }
    }

    pub open spec fn spec_below(self, rhs: Fixed) -> bool {
        self.raw < rhs.raw
    }

    /// Whether this number is strictly less than `rhs`.
    #[verifier::when_used_as_spec(spec_below)]
    pub fn below(self, rhs: Fixed) -> (r: bool)
        ensures
            r == self.spec_below(rhs),
    {
        self.raw < rhs.raw
    }

    pub open spec fn spec_at_most(self, rhs: Fixed) -> bool {
        self.raw <= rhs.raw
    }

    /// Whether this number is less than or equal to `rhs`.
    #[verifier::when_used_as_spec(spec_at_most)]
    pub fn at_most(self, rhs: Fixed) -> (r: bool)
        ensures
            r == self.spec_at_most(rhs),
    {
        self.raw <= rhs.raw
    }
}

} // verus!
