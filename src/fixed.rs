use vstd::prelude::*;
use crate::color::{clamp_int, IsColorChannel};

verus! {

/// The number of fixed-point steps in one unit: `Fixed { raw: SCALE }` is 1.0.
pub const SCALE: i64 = 16777216;

/// `n / d` rounded to the nearest integer, halves rounded up.
pub open spec fn div_round(n: int, d: int) -> int
    recommends
        d > 0,
{
    (2 * n + d) / (2 * d)
}

/// The fixed-point level closest to the byte level `v / 255`.
pub open spec fn byte_to_level(v: int) -> int {
    div_round(v * SCALE, 255)
}

/// The byte closest to the fixed-point level `x`, after clamping it to `[0, 1]`.
pub open spec fn level_to_byte(x: int) -> int {
    div_round(clamp_int(x, 0, SCALE as int) * 255, SCALE as int)
}

/// The position of `x` on the hue circle: unchanged on `[0, 1]`, reduced
/// modulo one unit elsewhere.
pub open spec fn wrap_level(x: int) -> int {
    if 0 <= x <= SCALE {
        x
    } else {
        x % (SCALE as int)
    }
}

/// The unit value of the byte `v`.
pub open spec fn fixed_of_byte(v: u8) -> Fixed {
    Fixed { raw: byte_to_level(v as int) as i64 }
}

/// The byte of the unit value `x`.
pub open spec fn byte_of_fixed(x: Fixed) -> u8 {
    level_to_byte(x.raw as int) as u8
}

/// Bounds on the quotient of a non-negative `n` by a positive `d`.
pub proof fn lemma_quotient(n: int, d: int, k: int)
    requires
        0 <= n,
        0 < d,
    ensures
        0 <= n / d <= n,
        d * (n / d) <= n < d * (n / d) + d,
        n < d * (k + 1) ==> n / d <= k,
        d * k <= n ==> k <= n / d,
{
    vstd::arithmetic::div_mod::lemma_fundamental_div_mod(n, d);
    vstd::arithmetic::div_mod::lemma_div_pos_is_pos(n, d);
    let q = n / d;
    assert(q <= n) by (nonlinear_arith)
        requires
            d * q <= n,
            d >= 1,
            q >= 0,
    ;
    assert(n < d * (k + 1) ==> q <= k) by (nonlinear_arith)
        requires
            d * q <= n,
            d > 0,
    ;
    assert(d * k <= n ==> k <= q) by (nonlinear_arith)
        requires
            n < d * q + d,
            d > 0,
    ;
}

/// The fixed-point product of two levels, `a * b / SCALE` rounded.
pub(crate) fn mul_unit(a: i64, b: i64) -> (r: i64)
    requires
        0 <= a <= 2 * SCALE,
        0 <= b <= 2 * SCALE,
    ensures
        r == div_round(a * b, SCALE as int),
        0 <= r,
        a <= SCALE ==> r <= b,
        b <= SCALE ==> r <= a,
{
    assert(0 <= a * b <= 4 * SCALE * SCALE) by (nonlinear_arith)
        requires
            0 <= a <= 2 * SCALE,
            0 <= b <= 2 * SCALE,
    ;
    assert(a <= SCALE ==> a * b <= SCALE * b) by (nonlinear_arith)
        requires
            b >= 0,
    ;
    assert(b <= SCALE ==> a * b <= SCALE * a) by (nonlinear_arith)
        requires
            a >= 0,
    ;
    let p = a * b;
    proof {
        if a <= SCALE {
            assert(2 * p + SCALE < (2 * SCALE) * (b + 1)) by (nonlinear_arith)
                requires
                    p <= SCALE * b,
                    SCALE > 0,
            ;
        }
        if b <= SCALE {
            assert(2 * p + SCALE < (2 * SCALE) * (a + 1)) by (nonlinear_arith)
                requires
                    p <= SCALE * a,
                    SCALE > 0,
            ;
        }
        lemma_quotient(2 * p + SCALE, 2 * SCALE, b as int);
        lemma_quotient(2 * p + SCALE, 2 * SCALE, a as int);
    }
    (2 * p + SCALE) / (2 * SCALE)
}

/// The fixed-point quotient of two levels, `a * SCALE / b` rounded.
pub(crate) fn ratio_unit(a: i64, b: i64) -> (r: i64)
    requires
        0 <= a <= 2 * SCALE,
        0 < b <= 4 * SCALE,
    ensures
        r == div_round(a * SCALE, b as int),
        0 <= r,
        a <= b ==> r <= SCALE,
{
    let n = 2 * a * SCALE + b;
    proof {
        lemma_quotient(n as int, 2 * b, SCALE as int);
    }
    n / (2 * b)
}

/// Unwinding puts every value on the hue circle `[0, 1]`, and every value
/// but 1 itself in `[0, 1)`.
pub proof fn lemma_wrap_on_circle(x: int)
    ensures
        0 <= wrap_level(x) <= SCALE,
        x != SCALE ==> 0 <= wrap_level(x) < SCALE,
{
    if !(0 <= x <= SCALE) {
        vstd::arithmetic::div_mod::lemma_mod_bound(x, SCALE as int);
    }
}

/// Widening a byte to a unit value and narrowing it back gives the byte again.
pub proof fn byte_round_trip(v: u8)
    ensures
        byte_of_fixed(fixed_of_byte(v)) == v,
{
    let n = v * SCALE * 2 + 255;
    lemma_quotient(n, 510, SCALE as int);
    let q = n / 510;
    assert(q <= SCALE) by (nonlinear_arith)
        requires
            510 * q <= n,
            n == v * SCALE * 2 + 255,
            v <= 255,
            SCALE == 16777216,
    ;
    let n2 = q * 255 * 2 + SCALE;
    assert(2 * SCALE * v <= n2 < 2 * SCALE * (v + 1)) by (nonlinear_arith)
        requires
            510 * q <= n < 510 * q + 510,
            n == v * SCALE * 2 + 255,
            n2 == q * 255 * 2 + SCALE,
            SCALE == 16777216,
    ;
    lemma_quotient(n2, 2 * SCALE, v as int);
}

/// A unit-interval channel value in fixed point, `raw / SCALE`.
///
/// Any `raw` may be held; linear channels are clamped to `[0, SCALE]` and
/// hue is wrapped where a conversion reads them.
#[derive(Clone, Copy, Debug, PartialEq, Eq, Structural)]
pub struct Fixed {
    pub raw: i64,
}

impl Fixed {
    /// The value closest to `num / den`.
    pub fn from_ratio(num: u32, den: u32) -> (r: Fixed)
        requires
            den > 0,
        ensures
            r.raw == div_round(num * SCALE, den as int),
    {
        assert(num as u64 * SCALE as u64 <= 4294967295u64 * 16777216u64) by (nonlinear_arith);
        let n: u64 = num as u64 * SCALE as u64;
        let d: u64 = den as u64;
        assert((2 * n + d) / (2 * d) <= 2 * n + d) by (nonlinear_arith)
            requires d > 0;
        Fixed { raw: ((2 * n + d) / (2 * d)) as i64 }
    }

    /// The unit value of the byte `v`, `v / 255`.
    pub fn from_byte(v: u8) -> (r: Fixed)
        ensures
            r == fixed_of_byte(v),
            r.raw == byte_to_level(v as int),
            0 <= r.raw <= SCALE,
    {
        let n: i64 = v as i64 * SCALE;
        Fixed { raw: (2 * n + 255) / 510 }
    }

    /// The byte closest to this value times 255, after clamping to `[0, 1]`.
    pub fn to_byte(self) -> (r: u8)
        ensures
            r == byte_of_fixed(self),
            r == level_to_byte(self.raw as int),
    {
        let c = self.clamp_channel();
        assert(0 <= (2 * c.raw * 255 + SCALE) / (2 * SCALE) <= 255);
        ((2 * c.raw * 255 + SCALE) / (2 * SCALE)) as u8
    }
}

impl IsColorChannel for Fixed {
    open spec fn level(self) -> int {
        self.raw as int
    }

    open spec fn min_level() -> int {
        0
    }

    open spec fn max_level() -> int {
        SCALE as int
    }

    open spec fn unwind_level(x: int) -> int {
        wrap_level(x)
    }

    open spec fn min_value() -> Fixed {
        Fixed { raw: 0 }
    }

    open spec fn max_value() -> Fixed {
        Fixed { raw: SCALE }
    }

    fn lowest() -> (r: Fixed) {
        Fixed { raw: 0 }
    }

    fn highest() -> (r: Fixed) {
        Fixed { raw: SCALE }
    }

    fn clamp_channel(self) -> (r: Fixed) {
        if self.raw < 0 {
            Fixed { raw: 0 }
        } else if self.raw > SCALE {
            Fixed { raw: SCALE }
        } else {
            self
        }
    }

    fn unwind_channel(self) -> (r: Fixed) {
        if 0 <= self.raw && self.raw <= SCALE {
            self
        } else {
            let m = self.raw % SCALE;
            let w = if m < 0 { m + SCALE } else { m };
            Fixed { raw: w }
        }
    }
}

} // verus!
