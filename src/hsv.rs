use vstd::prelude::*;
use vstd::std_specs::convert::FromSpec;
use crate::color::{HasAlpha, HasntAlpha, IsColor, IsColorChannel};
use crate::fixed::{
    byte_of_fixed, byte_round_trip, div_round, fixed_of_byte, mul_unit, ratio_unit, Fixed, SCALE,
};
use crate::hsl::Hsl;
use crate::hsva::Hsva;
use crate::model::{extremes, fixed, hue_from_rgb, hue_level, max3, min3, unit_level};
use crate::rgb::Rgb;

verus! {

/// A colour in the HSV model.
#[derive(Clone, Copy, Debug, PartialEq, Eq, Structural)]
pub struct Hsv<T> {
    pub hue: T,
    pub saturation: T,
    pub value: T,
}

impl<T: IsColorChannel> IsColor for Hsv<T> {
    type Channel = T;
}

impl<T: IsColorChannel> HasntAlpha for Hsv<T> {
    type Alphaful = Hsva<T>;

    open spec fn attach_alpha(self, alpha: T) -> Hsva<T> {
        Hsva { hue: self.hue, saturation: self.saturation, value: self.value, alpha }
    }

    fn with_alpha(self, alpha: T) -> (r: Hsva<T>) {
        let Hsv { hue, saturation, value } = self;
        Hsva { hue, saturation, value, alpha }
    }
}

impl<T> Hsv<T> {
    pub fn new(hue: T, saturation: T, value: T) -> (r: Self)
        ensures
            r == (Hsv { hue, saturation, value }),
    {
        Self { hue, saturation, value }
    }
}

impl<T: IsColorChannel> Default for Hsv<T> {
    /// Black: every channel at `MIN`.
    fn default() -> (r: Self)
        ensures
            r == (Hsv { hue: T::min_value(), saturation: T::min_value(), value: T::min_value() }),
    {
        Self::new(T::lowest(), T::lowest(), T::lowest())
    }
}

impl<T: IsColorChannel> From<Hsva<T>> for Hsv<T> {
    fn from(hsva: Hsva<T>) -> (r: Self) {
        hsva.without_alpha()
    }
}

impl<T: IsColorChannel> vstd::std_specs::convert::FromSpecImpl<Hsva<T>> for Hsv<T> {
    open spec fn obeys_from_spec() -> bool {
        true
    }

    open spec fn from_spec(v: Hsva<T>) -> Self {
        v.detach_alpha().0
    }
}

impl From<Hsv<u8>> for Hsv<Fixed> {
    /// Each channel `v` becomes `v / 255`.
    fn from(c: Hsv<u8>) -> (r: Self) {
        Self::new(
            Fixed::from_byte(c.hue),
            Fixed::from_byte(c.saturation),
            Fixed::from_byte(c.value),
        )
    }
}

impl vstd::std_specs::convert::FromSpecImpl<Hsv<u8>> for Hsv<Fixed> {
    open spec fn obeys_from_spec() -> bool {
        true
    }

    open spec fn from_spec(v: Hsv<u8>) -> Self {
        Hsv {
            hue: fixed_of_byte(v.hue),
            saturation: fixed_of_byte(v.saturation),
            value: fixed_of_byte(v.value),
        }
    }
}

impl From<Hsv<Fixed>> for Hsv<u8> {
    /// Each channel is clamped to `[0, 1]`, scaled by 255 and rounded.
    fn from(c: Hsv<Fixed>) -> (r: Self) {
        Self::new(
            c.hue.to_byte(),
            c.saturation.to_byte(),
            c.value.to_byte(),
        )
    }
}

impl vstd::std_specs::convert::FromSpecImpl<Hsv<Fixed>> for Hsv<u8> {
    open spec fn obeys_from_spec() -> bool {
        true
    }

    open spec fn from_spec(v: Hsv<Fixed>) -> Self {
        Hsv {
            hue: byte_of_fixed(v.hue),
            saturation: byte_of_fixed(v.saturation),
            value: byte_of_fixed(v.value),
        }
    }
}

/// The HSV colour of an RGB colour, channels clamped: black where the largest
/// channel is 0; otherwise value is the largest channel, saturation
/// `delta / max`, and hue 0 for an achromatic colour, else the hue its largest
/// channel picks.
pub open spec fn hsv_of_rgb(c: Rgb<Fixed>) -> Hsv<Fixed> {
    let r = unit_level(c.red);
    let g = unit_level(c.green);
    let b = unit_level(c.blue);
    let mx = max3(r, g, b);
    let delta = mx - min3(r, g, b);
    if mx <= 0 {
        Hsv { hue: fixed(0), saturation: fixed(0), value: fixed(0) }
    } else {
        Hsv {
            hue: fixed(
                if delta == 0 {
                    0
                } else {
                    hue_level(r, g, b, mx, delta)
                },
            ),
            saturation: fixed(div_round(delta * SCALE, mx)),
            value: fixed(mx),
        }
    }
}

/// The HSV colour of an HSL colour, saturation and lightness clamped: with
/// `l2 = 2l` and `s2 = s * min(l2, 2 - l2)`, value `(l2 + s2) / 2` and
/// saturation `2 * s2 / (l2 + s2)`, or 0 where that sum is 0. The hue is kept.
pub open spec fn hsv_of_hsl(c: Hsl<Fixed>) -> Hsv<Fixed> {
    let s = unit_level(c.saturation);
    let l2 = 2 * unit_level(c.lightness);
    let s2 = div_round(
        s * (if l2 <= SCALE {
            l2
        } else {
            2 * SCALE - l2
        }),
        SCALE as int,
    );
    let sum = l2 + s2;
    let saturation = if sum == 0 {
        0
    } else {
        div_round(2 * s2 * SCALE, sum)
    };
    Hsv { hue: c.hue, saturation: fixed(saturation), value: fixed(div_round(sum, 2)) }
}

impl From<Rgb<Fixed>> for Hsv<Fixed> {
    fn from(c: Rgb<Fixed>) -> (r: Self) {
        let red = c.red.clamp_channel().raw;
        let green = c.green.clamp_channel().raw;
        let blue = c.blue.clamp_channel().raw;
        let (max, min) = extremes(red, green, blue);
        if max > 0 {
            let delta = max - min;
            let saturation = ratio_unit(delta, max);
            let hue = if delta != 0 {
                hue_from_rgb(red, green, blue, max, delta)
            } else {
                Fixed { raw: 0 }
            };
            Hsv::new(hue, Fixed { raw: saturation }, Fixed { raw: max })
        } else {
            Hsv::new(Fixed { raw: 0 }, Fixed { raw: 0 }, Fixed { raw: 0 })
        }
    }
}

impl vstd::std_specs::convert::FromSpecImpl<Rgb<Fixed>> for Hsv<Fixed> {
    open spec fn obeys_from_spec() -> bool {
        true
    }

    open spec fn from_spec(v: Rgb<Fixed>) -> Self {
        hsv_of_rgb(v)
    }
}

impl From<Hsl<Fixed>> for Hsv<Fixed> {
    fn from(c: Hsl<Fixed>) -> (r: Self) {
        let saturation = c.saturation.clamp_channel().raw;
        let lightness = 2 * c.lightness.clamp_channel().raw;
        let saturation = mul_unit(
            saturation,
            if lightness > SCALE { 2 * SCALE - lightness } else { lightness },
        );
        let lightness_plus_saturation = lightness + saturation;
        let value = (2 * lightness_plus_saturation + 2) / 4;
        let saturation = if lightness_plus_saturation == 0 {
            0
        } else {
            ratio_unit(2 * saturation, lightness_plus_saturation)
        };
        Hsv::new(c.hue, Fixed { raw: saturation }, Fixed { raw: value })
    }
}

impl vstd::std_specs::convert::FromSpecImpl<Hsl<Fixed>> for Hsv<Fixed> {
    open spec fn obeys_from_spec() -> bool {
        true
    }

    open spec fn from_spec(v: Hsl<Fixed>) -> Self {
        hsv_of_hsl(v)
    }
}

/// Widening an HSV colour from bytes to unit values and narrowing it back gives the
/// colour again.
pub proof fn hsv_byte_round_trip(c: Hsv<u8>)
    ensures
        <Hsv<u8> as FromSpec<Hsv<Fixed>>>::from_spec(
            <Hsv<Fixed> as FromSpec<Hsv<u8>>>::from_spec(c),
        ) == c,
{
    byte_round_trip(c.hue);
    byte_round_trip(c.saturation);
    byte_round_trip(c.value);
}

} // verus!
