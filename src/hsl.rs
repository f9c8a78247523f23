use vstd::prelude::*;
use vstd::std_specs::convert::FromSpec;
use crate::color::{HasAlpha, HasntAlpha, IsColor, IsColorChannel};
use crate::fixed::{
    byte_of_fixed, byte_round_trip, div_round, fixed_of_byte, mul_unit, ratio_unit, Fixed, SCALE,
};
use crate::hsla::Hsla;
use crate::hsv::Hsv;
use crate::model::{abs_int, extremes, fixed, hue_from_rgb, hue_level, max3, min3, unit_level};
use crate::rgb::Rgb;

verus! {

/// A colour in the HSL model.
#[derive(Clone, Copy, Debug, PartialEq, Eq, Structural)]
pub struct Hsl<T> {
    pub hue: T,
    pub saturation: T,
    pub lightness: T,
}

impl<T: IsColorChannel> IsColor for Hsl<T> {
    type Channel = T;
}

impl<T: IsColorChannel> HasntAlpha for Hsl<T> {
    type Alphaful = Hsla<T>;

    open spec fn attach_alpha(self, alpha: T) -> Hsla<T> {
        Hsla { hue: self.hue, saturation: self.saturation, lightness: self.lightness, alpha }
    }

    fn with_alpha(self, alpha: T) -> (r: Hsla<T>) {
        let Hsl { hue, saturation, lightness } = self;
        Hsla { hue, saturation, lightness, alpha }
    }
}

impl<T> Hsl<T> {
    pub fn new(hue: T, saturation: T, lightness: T) -> (r: Self)
        ensures
            r == (Hsl { hue, saturation, lightness }),
    {
        Self { hue, saturation, lightness }
    }
}

impl<T: IsColorChannel> Default for Hsl<T> {
    /// Black: every channel at `MIN`.
    fn default() -> (r: Self)
        ensures
            r == (Hsl { hue: T::min_value(), saturation: T::min_value(), lightness: T::min_value() }),
    {
        Self::new(T::lowest(), T::lowest(), T::lowest())
    }
}

impl<T: IsColorChannel> From<Hsla<T>> for Hsl<T> {
    fn from(hsla: Hsla<T>) -> (r: Self) {
        hsla.without_alpha()
    }
}

impl<T: IsColorChannel> vstd::std_specs::convert::FromSpecImpl<Hsla<T>> for Hsl<T> {
    open spec fn obeys_from_spec() -> bool {
        true
    }

    open spec fn from_spec(v: Hsla<T>) -> Self {
        v.detach_alpha().0
    }
}

impl From<Hsl<u8>> for Hsl<Fixed> {
    /// Each channel `v` becomes `v / 255`.
    fn from(c: Hsl<u8>) -> (r: Self) {
        Self::new(
            Fixed::from_byte(c.hue),
            Fixed::from_byte(c.saturation),
            Fixed::from_byte(c.lightness),
        )
    }
}

impl vstd::std_specs::convert::FromSpecImpl<Hsl<u8>> for Hsl<Fixed> {
    open spec fn obeys_from_spec() -> bool {
        true
    }

    open spec fn from_spec(v: Hsl<u8>) -> Self {
        Hsl {
            hue: fixed_of_byte(v.hue),
            saturation: fixed_of_byte(v.saturation),
            lightness: fixed_of_byte(v.lightness),
        }
    }
}

impl From<Hsl<Fixed>> for Hsl<u8> {
    /// Each channel is clamped to `[0, 1]`, scaled by 255 and rounded.
    fn from(c: Hsl<Fixed>) -> (r: Self) {
        Self::new(
            c.hue.to_byte(),
            c.saturation.to_byte(),
            c.lightness.to_byte(),
        )
    }
}

impl vstd::std_specs::convert::FromSpecImpl<Hsl<Fixed>> for Hsl<u8> {
    open spec fn obeys_from_spec() -> bool {
        true
    }

    open spec fn from_spec(v: Hsl<Fixed>) -> Self {
        Hsl {
            hue: byte_of_fixed(v.hue),
            saturation: byte_of_fixed(v.saturation),
            lightness: byte_of_fixed(v.lightness),
        }
    }
}

/// The HSL colour of an RGB colour, channels clamped: lightness is the mean
/// of the largest and smallest channel; an achromatic colour has hue and
/// saturation 0, any other the hue its largest channel picks and saturation
/// `delta / (1 - |2l - 1|)`.
pub open spec fn hsl_of_rgb(c: Rgb<Fixed>) -> Hsl<Fixed> {
    let r = unit_level(c.red);
    let g = unit_level(c.green);
    let b = unit_level(c.blue);
    let mx = max3(r, g, b);
    let mn = min3(r, g, b);
    let delta = mx - mn;
    let lightness = fixed(div_round(mx + mn, 2));
    if delta == 0 {
        Hsl { hue: fixed(0), saturation: fixed(0), lightness }
    } else {
        Hsl {
            hue: fixed(hue_level(r, g, b, mx, delta)),
            saturation: fixed(div_round(delta * SCALE, SCALE - abs_int(mx + mn - SCALE))),
            lightness,
        }
    }
}

/// The HSL colour of an HSV colour, saturation and value clamped: with
/// `l2 = (2 - s) * v`, lightness `l2 / 2` and saturation `s * v` over
/// `min(l2, 2 - l2)`, or 0 where that is 0. The hue is kept.
pub open spec fn hsl_of_hsv(c: Hsv<Fixed>) -> Hsl<Fixed> {
    let s = unit_level(c.saturation);
    let v = unit_level(c.value);
    let l2 = div_round((2 * SCALE - s) * v, SCALE as int);
    let denominator = if l2 <= SCALE {
        l2
    } else {
        2 * SCALE - l2
    };
    let saturation = if denominator > 0 {
        div_round(div_round(s * v, SCALE as int) * SCALE, denominator)
    } else {
        0
    };
    Hsl { hue: c.hue, saturation: fixed(saturation), lightness: fixed(div_round(l2, 2)) }
}

impl From<Rgb<Fixed>> for Hsl<Fixed> {
    fn from(c: Rgb<Fixed>) -> (r: Self) {
        let red = c.red.clamp_channel().raw;
        let green = c.green.clamp_channel().raw;
        let blue = c.blue.clamp_channel().raw;
        let (c_max, c_min) = extremes(red, green, blue);
        let c_delta = c_max - c_min;
        let lightness = Fixed { raw: (2 * (c_max + c_min) + 2) / 4 };
        if c_delta == 0 {
            Hsl::new(Fixed { raw: 0 }, Fixed { raw: 0 }, lightness)
        } else {
            let hue = hue_from_rgb(red, green, blue, c_max, c_delta);
            let spread = c_max + c_min - SCALE;
            let spread = if spread < 0 { -spread } else { spread };
            let saturation = ratio_unit(c_delta, SCALE - spread);
            Hsl::new(hue, Fixed { raw: saturation }, lightness)
        }
    }
}

impl vstd::std_specs::convert::FromSpecImpl<Rgb<Fixed>> for Hsl<Fixed> {
    open spec fn obeys_from_spec() -> bool {
        true
    }

    open spec fn from_spec(v: Rgb<Fixed>) -> Self {
        hsl_of_rgb(v)
    }
}

impl From<Hsv<Fixed>> for Hsl<Fixed> {
    fn from(c: Hsv<Fixed>) -> (r: Self) {
        let saturation = c.saturation.clamp_channel().raw;
        let value = c.value.clamp_channel().raw;
        let lightness = mul_unit(2 * SCALE - saturation, value);
        let denominator = if lightness > SCALE { 2 * SCALE - lightness } else { lightness };
        let saturation = if denominator > 0 {
            ratio_unit(mul_unit(saturation, value), denominator)
        } else {
            0
        };
        Hsl::new(c.hue, Fixed { raw: saturation }, Fixed { raw: (2 * lightness + 2) / 4 })
    }
}

impl vstd::std_specs::convert::FromSpecImpl<Hsv<Fixed>> for Hsl<Fixed> {
    open spec fn obeys_from_spec() -> bool {
        true
    }

    open spec fn from_spec(v: Hsv<Fixed>) -> Self {
        hsl_of_hsv(v)
    }
}

/// Widening an HSL colour from bytes to unit values and narrowing it back gives the
/// colour again.
pub proof fn hsl_byte_round_trip(c: Hsl<u8>)
    ensures
        <Hsl<u8> as FromSpec<Hsl<Fixed>>>::from_spec(
            <Hsl<Fixed> as FromSpec<Hsl<u8>>>::from_spec(c),
        ) == c,
{
    byte_round_trip(c.hue);
    byte_round_trip(c.saturation);
    byte_round_trip(c.lightness);
}

} // verus!
