//! Sine, cosine and a power of two on fixed-point numbers, by rational
//! approximation.

use vstd::prelude::*;
use crate::fixed::{sat64, Fixed, SCALE};

verus! {

/// Half a turn in raw units.
pub const PI_RAW: i64 = 3_141_593;

/// A quarter turn in raw units.
pub const HALF_PI_RAW: i64 = 1_570_796;

/// A full turn in raw units.
pub const TWO_PI_RAW: i64 = 6_283_186;

/// The arch of the sine over half a turn, for a raw `x` in `0 ..= PI_RAW`:
/// `16 x (π - x) / (5 π² - 4 x (π - x))`, rescaled and rounded to the nearest
/// millionth, so that the arch reaches one at its top.
pub open spec fn half_wave(x: int) -> int {
    (16 * (x * (PI_RAW - x)) * SCALE + (5 * (PI_RAW * PI_RAW) - 4 * (x * (PI_RAW - x))) / 2) / (5
        * (PI_RAW * PI_RAW) - 4 * (x * (PI_RAW - x)))
}

/// Sine of a raw angle in radians: the angle is reduced into one turn, whose
/// first half is the arch and whose second half is the arch turned over.
#[verifier::opaque]
pub open spec fn sine_raw(a: int) -> int {
    let r = a % (TWO_PI_RAW as int);
    if r <= PI_RAW {
        half_wave(r)
    } else {
        -half_wave(r - PI_RAW)
    }
}

/// Cosine of a raw angle in radians: the sine a quarter turn on.
pub open spec fn cosine_raw(a: int) -> int {
    sine_raw(a + HALF_PI_RAW)
}

/// The arch stays between zero and one.
pub proof fn lemma_half_wave_bounds(x: int)
    requires
        0 <= x <= PI_RAW,
    ensures
        0 <= x * (PI_RAW - x),
        4 * (x * (PI_RAW - x)) <= PI_RAW * PI_RAW,
        5 * (PI_RAW * PI_RAW) - 4 * (x * (PI_RAW - x)) > 0,
        0 <= half_wave(x) <= SCALE,
{
    let p = x * (PI_RAW - x);
    let q = PI_RAW * PI_RAW;
    assert(0 <= p) by (nonlinear_arith)
        requires
            p == x * (PI_RAW - x),
            0 <= x <= PI_RAW,
    ;
    assert(4 * p <= q) by (nonlinear_arith)
        requires
            p == x * (PI_RAW - x),
            q == PI_RAW * PI_RAW,
    {
        assert((2 * x - PI_RAW) * (2 * x - PI_RAW) >= 0);
    }
    assert(q > 0) by (nonlinear_arith)
        requires
            q == PI_RAW * PI_RAW,
            PI_RAW == 3_141_593,
    ;
    let den = 5 * q - 4 * p;
    let num = 16 * p * SCALE;
    assert(0 <= num <= den * SCALE) by (nonlinear_arith)
        requires
            num == 16 * p * SCALE,
            den == 5 * q - 4 * p,
            4 * p <= q,
            0 <= p,
            SCALE == 1_000_000,
    ;
    let half = den / 2;
    assert(0 <= half < den);
    assert(0 <= (num + half) / den <= SCALE) by (nonlinear_arith)
        requires
            0 <= num <= den * SCALE,
            0 <= half < den,
            den > 0,
    ;
}

/// Two to the raw power `g` in `0 .. SCALE`, as a raw value between one and
/// two: `1 + g (0.656 + 0.344 g)`.
pub open spec fn pow2_fraction(g: int) -> int {
    SCALE + (g * (656_000 + (344_000 * g) / (SCALE as int))) / (SCALE as int)
}

/// `m` doubled `k` times with saturation, or halved `-k` times rounding
/// down.
pub open spec fn shift_pow2(m: int, k: int) -> int
    decreases
            (if k >= 0 {
                k
            } else {
                -k
            }),
{
    if k == 0 {
        m
    } else if k > 0 {
        shift_pow2(sat64(2 * m), k - 1)
    } else {
        shift_pow2(m / 2, k + 1)
    }
}

/// Two to a raw power: the whole part of the exponent shifts, the rest goes
/// through `pow2_fraction`. Beyond forty doublings the result saturates.
#[verifier::opaque]
pub open spec fn exp2_raw(e: int) -> int {
    let k = e / (SCALE as int);
    let g = e % (SCALE as int);
    if k > 40 {
        i64::MAX as int
    } else if k < -40 {
        0
    } else {
        shift_pow2(pow2_fraction(g), k)
    }
}

proof fn lemma_pow2_fraction_bounds(g: int)
    requires
        0 <= g < SCALE,
    ensures
        SCALE <= pow2_fraction(g) <= 2 * SCALE,
        0 <= 344_000 * g <= 344_000 * SCALE,
        0 <= (344_000 * g) / (SCALE as int) <= 344_000,
        0 <= g * (656_000 + (344_000 * g) / (SCALE as int)) <= SCALE * SCALE,
{
    let a = (344_000 * g) / (SCALE as int);
    assert(0 <= a <= 344_000);
    assert(0 <= g * (656_000 + a) <= SCALE * SCALE) by (nonlinear_arith)
        requires
            0 <= g < SCALE,
            0 <= a <= 344_000,
            SCALE == 1_000_000,
    ;
    assert(0 <= (g * (656_000 + a)) / (SCALE as int) <= SCALE) by (nonlinear_arith)
        requires
            0 <= g * (656_000 + a) <= SCALE * SCALE,
            SCALE == 1_000_000,
    ;
}

fn exp2_exec(e: i64) -> (r: i64)
    ensures
        r == exp2_raw(e as int),
        r >= 0,
{
    proof {
        reveal(exp2_raw);
    }
    let mut k: i64 = e / SCALE;
    let mut g: i64 = e % SCALE;
    if g < 0 {
        g = g + SCALE;
        k = k - 1;
    }
    assert(k == (e as int) / (SCALE as int) && g == (e as int) % (SCALE as int)) by (nonlinear_arith)
        requires
            SCALE == 1_000_000,
            0 <= g < SCALE,
            e == k * SCALE + g,
    ;
    if k > 40 {
        return i64::MAX;
    }
    if k < -40 {
        return 0;
    }
    proof {
        lemma_pow2_fraction_bounds(g as int);
    }
    let mut m: i64 = SCALE + (g * (656_000 + (344_000 * g) / SCALE)) / SCALE;
    let ghost m0 = m as int;
    let ghost k0 = k as int;
    if k >= 0 {
        while k > 0
            invariant
                0 <= k <= 40,
                0 <= m,
                shift_pow2(m as int, k as int) == shift_pow2(m0, k0),
            decreases k,
        {
            m = if m > i64::MAX / 2 {
                i64::MAX
            } else {
                2 * m
            };
            k = k - 1;
        }
    } else {
        while k < 0
            invariant
                -40 <= k <= 0,
                0 <= m,
                shift_pow2(m as int, k as int) == shift_pow2(m0, k0),
            decreases -k,
        {
            m = m / 2;
            k = k + 1;
        }
    }
    m
}

fn half_wave_exec(x: i64) -> (r: i64)
    requires
        0 <= x <= PI_RAW,
    ensures
        r == half_wave(x as int),
        0 <= r <= SCALE,
{
    proof {
        lemma_half_wave_bounds(x as int);
        assert(PI_RAW * PI_RAW == 9_869_606_577_649) by (nonlinear_arith)
            requires
                PI_RAW == 3_141_593,
        ;
    }
    let p: i128 = (x as i128) * ((PI_RAW - x) as i128);
    let q: i128 = 9_869_606_577_649;
    let num: i128 = 16 * p * 1_000_000;
    let den: i128 = 5 * q - 4 * p;
    ((num + den / 2) / den) as i64
}

fn reduce_turn(a: i128) -> (r: i64)
    requires
        a > i128::MIN,
    ensures
        r == (a as int) % (TWO_PI_RAW as int),
        0 <= r < TWO_PI_RAW,
{
    if a >= 0 {
        (a % 6_283_186) as i64
    } else {
        let m: i128 = (-a) % 6_283_186;
        proof {
            let b = -(a as int);
            assert((-b) % 6_283_186 == if b % 6_283_186 == 0 {
                0
            } else {
                6_283_186 - b % 6_283_186
            }) by (nonlinear_arith)
                requires
                    b > 0,
            ;
        }
        if m == 0 {
            0
        } else {
            (6_283_186 - m) as i64
        }
    }
}

fn sine_wide(a: i128) -> (r: i64)
    requires
        a > i128::MIN,
    ensures
        r == sine_raw(a as int),
        -SCALE <= r <= SCALE,
{
    proof {
        reveal(sine_raw);
    }
    let t: i64 = reduce_turn(a);
    if t <= PI_RAW {
        half_wave_exec(t)
    } else {
        -half_wave_exec(t - PI_RAW)
    }
}

impl Fixed {
    pub open spec fn spec_sine(self) -> Fixed {
        Fixed { raw: sine_raw(self.raw as int) as i64 }
    }

    /// Sine of an angle in radians, to within a few thousandths.
    #[verifier::when_used_as_spec(spec_sine)]
    pub fn sine(self) -> (r: Fixed)
        ensures
            r == self.spec_sine(),
            -SCALE <= r.raw <= SCALE,
    {
        Fixed { raw: sine_wide(self.raw as i128) }
    }

    pub open spec fn spec_exp2(self) -> Fixed {
        Fixed { raw: exp2_raw(self.raw as int) as i64 }
    }

    /// Two to the power of this number, to within a few thousandths of the
    /// result; saturated beyond forty doublings.
    #[verifier::when_used_as_spec(spec_exp2)]
    pub fn exp2(self) -> (r: Fixed)
        ensures
            r == self.spec_exp2(),
    {
        Fixed { raw: exp2_exec(self.raw) }
    }

    pub open spec fn spec_cosine(self) -> Fixed {
        Fixed { raw: cosine_raw(self.raw as int) as i64 }
    }

    /// Cosine of an angle in radians, to within a few thousandths.
    #[verifier::when_used_as_spec(spec_cosine)]
    pub fn cosine(self) -> (r: Fixed)
        ensures
            r == self.spec_cosine(),
            -SCALE <= r.raw <= SCALE,
    {
        Fixed { raw: sine_wide(self.raw as i128 + HALF_PI_RAW as i128) }
    }
}

} // verus!
