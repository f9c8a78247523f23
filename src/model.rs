use vstd::prelude::*;
use crate::color::clamp_int;
use crate::fixed::{div_round, lemma_quotient, mul_unit, Fixed, SCALE};
use crate::hsl::hsl_of_rgb;
use crate::hsv::hsv_of_rgb;
use crate::rgb::Rgb;

verus! {

/// A level as a fixed-point channel value.
pub open spec fn fixed(x: int) -> Fixed {
    Fixed { raw: x as i64 }
}

/// The level of a linear channel, clamped to `[0, 1]`.
pub open spec fn unit_level(x: Fixed) -> int {
    clamp_int(x.raw as int, 0, SCALE as int)
}

pub open spec fn abs_int(x: int) -> int {
    if x < 0 {
        -x
    } else {
        x
    }
}

pub open spec fn max3(a: int, b: int, c: int) -> int {
    let m = if a >= b { a } else { b };
    if m >= c {
        m
    } else {
        c
    }
}

pub open spec fn min3(a: int, b: int, c: int) -> int {
    let m = if a <= b { a } else { b };
    if m <= c {
        m
    } else {
        c
    }
}

/// The hue, in sixths of the circle times `delta`, of an RGB colour whose
/// largest channel is `mx` and whose largest and smallest channels differ by
/// `delta`: the largest channel picks the sector (red 0, green 2, blue 4),
/// the other two the offset within it.
pub open spec fn hue_sixths(r: int, g: int, b: int, mx: int, delta: int) -> int {
    if mx == r {
        (g - b) % (6 * delta)
    } else if mx == g {
        b - r + 2 * delta
    } else {
        r - g + 4 * delta
    }
}

/// The hue level of an RGB colour with `delta > 0`, rounded and then wrapped
/// into `[0, 1)`: a hue that rounds up to a full turn becomes 0.
pub open spec fn hue_level(r: int, g: int, b: int, mx: int, delta: int) -> int {
    div_round(hue_sixths(r, g, b, mx, delta) * SCALE, 6 * delta) % (SCALE as int)
}

/// The hue that RGB to HSL and RGB to HSV give lies in `[0, 1)`.
pub proof fn rgb_hue_below_one_turn(c: Rgb<Fixed>)
    ensures
        0 <= hsl_of_rgb(c).hue.raw < SCALE,
        0 <= hsv_of_rgb(c).hue.raw < SCALE,
{
    let r = unit_level(c.red);
    let g = unit_level(c.green);
    let b = unit_level(c.blue);
    let mx = max3(r, g, b);
    let delta = mx - min3(r, g, b);
    if delta != 0 {
        vstd::arithmetic::div_mod::lemma_mod_bound(
            div_round(hue_sixths(r, g, b, mx, delta) * SCALE, 6 * delta),
            SCALE as int,
        );
    }
}

/// The second-largest channel's share of the chroma `c` at hue level `h`:
/// `c * (1 - |(6h mod 2) - 1|)`.
pub open spec fn second_level(h: int, c: int) -> int {
    div_round(c * (SCALE - abs_int((6 * h) % (2 * SCALE as int) - SCALE)), SCALE as int)
}

/// The RGB colour in the hue sector `floor(6h) mod 6`, where the chroma `c` and
/// the second share `x` go to two channels and 0 to the third, and the offset
/// `m` is added to all three.
pub open spec fn sector_rgb(h: int, c: int, x: int, m: int) -> Rgb<Fixed> {
    let k = (6 * h / (SCALE as int)) % 6;
    let (r, g, b) = if k == 1 {
        (x, c, 0)
    } else if k == 2 {
        (0, c, x)
    } else if k == 3 {
        (0, x, c)
    } else if k == 4 {
        (x, 0, c)
    } else if k == 5 {
        (c, 0, x)
    } else {
        (c, x, 0)
    };
    Rgb { red: fixed(r + m), green: fixed(g + m), blue: fixed(b + m) }
}

/// The largest and smallest of three levels.
pub(crate) fn extremes(r: i64, g: i64, b: i64) -> (res: (i64, i64))
    ensures
        res.0 == max3(r as int, g as int, b as int),
        res.1 == min3(r as int, g as int, b as int),
{
    let hi = if r >= g { r } else { g };
    let hi = if hi >= b { hi } else { b };
    let lo = if r <= g { r } else { g };
    let lo = if lo <= b { lo } else { b };
    (hi, lo)
}

/// The hue of an RGB colour whose channels are clamped and differ.
pub(crate) fn hue_from_rgb(r: i64, g: i64, b: i64, mx: i64, delta: i64) -> (h: Fixed)
    requires
        0 <= r <= SCALE,
        0 <= g <= SCALE,
        0 <= b <= SCALE,
        mx == max3(r as int, g as int, b as int),
        delta == mx - min3(r as int, g as int, b as int),
        delta > 0,
    ensures
        h.raw == hue_level(r as int, g as int, b as int, mx as int, delta as int),
        0 <= h.raw < SCALE,
{
    let sixths: i64 = if mx == r {
        if g >= b {
            g - b
        } else {
            g - b + 6 * delta
        }
    } else if mx == g {
        b - r + 2 * delta
    } else {
        r - g + 4 * delta
    };
    proof {
        if mx == r {
            if g >= b {
                vstd::arithmetic::div_mod::lemma_fundamental_div_mod_converse_mod(
                    (g - b) as int, 6 * delta, 0, (g - b) as int);
            } else {
                vstd::arithmetic::div_mod::lemma_fundamental_div_mod_converse_mod(
                    (g - b) as int, 6 * delta, -1, (g - b + 6 * delta) as int);
            }
        }
        assert(sixths == hue_sixths(r as int, g as int, b as int, mx as int, delta as int));
        assert(0 <= sixths <= 6 * delta);
        assert(sixths * SCALE <= 6 * delta * SCALE) by (nonlinear_arith)
            requires
                0 <= sixths <= 6 * delta,
                SCALE > 0,
        ;
        assert(2 * sixths * SCALE + 6 * delta < (12 * delta) * (SCALE + 1)) by (nonlinear_arith)
            requires
                sixths * SCALE <= 6 * delta * SCALE,
                delta > 0,
        ;
    }
    let n = 2 * sixths * SCALE + 6 * delta;
    proof {
        lemma_quotient(n as int, 12 * delta, SCALE as int);
    }
    let h = n / (12 * delta);
    proof {
        if h < SCALE {
            vstd::arithmetic::div_mod::lemma_fundamental_div_mod_converse_mod(
                h as int, SCALE as int, 0, h as int);
        } else {
            vstd::arithmetic::div_mod::lemma_fundamental_div_mod_converse_mod(
                h as int, SCALE as int, 1, 0);
        }
    }
    Fixed { raw: if h == SCALE { 0 } else { h } }
}

/// The second-largest channel's share of the chroma `c` at hue `h`.
pub(crate) fn second_share(h: i64, c: i64) -> (x: i64)
    requires
        0 <= h <= SCALE,
        0 <= c <= SCALE,
    ensures
        x == second_level(h as int, c as int),
        0 <= x <= c,
{
    let t = 6 * h % (2 * SCALE) - SCALE;
    let t = if t < 0 { -t } else { t };
    mul_unit(c, SCALE - t)
}

} // verus!
