use vstd::prelude::*;
use vstd::std_specs::convert::FromSpec;
use crate::color::{HasAlpha, HasntAlpha, IsColor, IsColorChannel};
use crate::fixed::{
    byte_of_fixed, byte_round_trip, div_round, fixed_of_byte, lemma_wrap_on_circle, mul_unit,
    wrap_level, Fixed, SCALE,
};
use crate::hsl::{hsl_of_rgb, Hsl};
use crate::hsv::Hsv;
use crate::model::{abs_int, second_level, second_share, sector_rgb, unit_level};
use crate::rgba::Rgba;

verus! {

/// A colour in the RGB model.
#[derive(Clone, Copy, Debug, PartialEq, Eq, Structural)]
pub struct Rgb<T> {
    pub red: T,
    pub green: T,
    pub blue: T,
}

impl<T: IsColorChannel> IsColor for Rgb<T> {
    type Channel = T;
}

impl<T: IsColorChannel> HasntAlpha for Rgb<T> {
    type Alphaful = Rgba<T>;

    open spec fn attach_alpha(self, alpha: T) -> Rgba<T> {
        Rgba { red: self.red, green: self.green, blue: self.blue, alpha }
    }

    fn with_alpha(self, alpha: T) -> (r: Rgba<T>) {
        let Rgb { red, green, blue } = self;
        Rgba { red, green, blue, alpha }
    }
}

impl<T> Rgb<T> {
    pub fn new(red: T, green: T, blue: T) -> (r: Self)
        ensures
            r == (Rgb { red, green, blue }),
    {
        Self { red, green, blue }
    }
}

impl<T: IsColorChannel> Default for Rgb<T> {
    /// Black: every channel at `MIN`.
    fn default() -> (r: Self)
        ensures
            r == (Rgb { red: T::min_value(), green: T::min_value(), blue: T::min_value() }),
    {
        Self::new(T::lowest(), T::lowest(), T::lowest())
    }
}

impl<T: IsColorChannel> From<Rgba<T>> for Rgb<T> {
    fn from(rgba: Rgba<T>) -> (r: Self) {
        rgba.without_alpha()
    }
}

impl<T: IsColorChannel> vstd::std_specs::convert::FromSpecImpl<Rgba<T>> for Rgb<T> {
    open spec fn obeys_from_spec() -> bool {
        true
    }

    open spec fn from_spec(v: Rgba<T>) -> Self {
        v.detach_alpha().0
    }
}

impl From<Rgb<u8>> for Rgb<Fixed> {
    /// Each channel `v` becomes `v / 255`.
    fn from(c: Rgb<u8>) -> (r: Self) {
        Self::new(
            Fixed::from_byte(c.red),
            Fixed::from_byte(c.green),
            Fixed::from_byte(c.blue),
        )
    }
}

impl vstd::std_specs::convert::FromSpecImpl<Rgb<u8>> for Rgb<Fixed> {
    open spec fn obeys_from_spec() -> bool {
        true
    }

    open spec fn from_spec(v: Rgb<u8>) -> Self {
        Rgb {
            red: fixed_of_byte(v.red),
            green: fixed_of_byte(v.green),
            blue: fixed_of_byte(v.blue),
        }
    }
}

impl From<Rgb<Fixed>> for Rgb<u8> {
    /// Each channel is clamped to `[0, 1]`, scaled by 255 and rounded.
    fn from(c: Rgb<Fixed>) -> (r: Self) {
        Self::new(
            c.red.to_byte(),
            c.green.to_byte(),
            c.blue.to_byte(),
        )
    }
}

impl vstd::std_specs::convert::FromSpecImpl<Rgb<Fixed>> for Rgb<u8> {
    open spec fn obeys_from_spec() -> bool {
        true
    }

    open spec fn from_spec(v: Rgb<Fixed>) -> Self {
        Rgb {
            red: byte_of_fixed(v.red),
            green: byte_of_fixed(v.green),
            blue: byte_of_fixed(v.blue),
        }
    }
}

/// The RGB colour of an HSL colour: hue wrapped, saturation and lightness
/// clamped, chroma `(1 - |2l - 1|) * s`, offset `l - chroma / 2`.
pub open spec fn rgb_of_hsl(c: Hsl<Fixed>) -> Rgb<Fixed> {
    let h = wrap_level(c.hue.raw as int);
    let s = unit_level(c.saturation);
    let l = unit_level(c.lightness);
    let chroma = div_round((SCALE - abs_int(2 * l - SCALE)) * s, SCALE as int);
    sector_rgb(h, chroma, second_level(h, chroma), l - div_round(chroma, 2))
}

/// The RGB colour of an HSV colour: hue wrapped, saturation and value
/// clamped, chroma `v * s`, offset `v - chroma`.
pub open spec fn rgb_of_hsv(c: Hsv<Fixed>) -> Rgb<Fixed> {
    let h = wrap_level(c.hue.raw as int);
    let s = unit_level(c.saturation);
    let v = unit_level(c.value);
    let chroma = div_round(v * s, SCALE as int);
    sector_rgb(h, chroma, second_level(h, chroma), v - chroma)
}

impl From<Hsl<Fixed>> for Rgb<Fixed> {
    fn from(c: Hsl<Fixed>) -> (r: Self) {
        let hue = c.hue.unwind_channel();
        let saturation = c.saturation.clamp_channel().raw;
        let lightness = c.lightness.clamp_channel().raw;
        proof {
            lemma_wrap_on_circle(c.hue.raw as int);
        }
        let spread = 2 * lightness - SCALE;
        let spread = if spread < 0 { -spread } else { spread };
        let chroma = mul_unit(SCALE - spread, saturation);
        let x = second_share(hue.raw, chroma);
        let m = lightness - (chroma + 1) / 2;
        hue_cxm_to_rgb(hue, Fixed { raw: chroma }, Fixed { raw: x }, Fixed { raw: m })
    }
}

impl vstd::std_specs::convert::FromSpecImpl<Hsl<Fixed>> for Rgb<Fixed> {
    open spec fn obeys_from_spec() -> bool {
        true
    }

    open spec fn from_spec(v: Hsl<Fixed>) -> Self {
        rgb_of_hsl(v)
    }
}

impl From<Hsv<Fixed>> for Rgb<Fixed> {
    fn from(c: Hsv<Fixed>) -> (r: Self) {
        let hue = c.hue.unwind_channel();
        let saturation = c.saturation.clamp_channel().raw;
        let value = c.value.clamp_channel().raw;
        proof {
            lemma_wrap_on_circle(c.hue.raw as int);
        }
        let chroma = mul_unit(value, saturation);
        let x = second_share(hue.raw, chroma);
        let m = value - chroma;
        hue_cxm_to_rgb(hue, Fixed { raw: chroma }, Fixed { raw: x }, Fixed { raw: m })
    }
}

impl vstd::std_specs::convert::FromSpecImpl<Hsv<Fixed>> for Rgb<Fixed> {
    open spec fn obeys_from_spec() -> bool {
        true
    }

    open spec fn from_spec(v: Hsv<Fixed>) -> Self {
        rgb_of_hsv(v)
    }
}

/// Places the chroma `c` and the second share `x` by the hue sector of `hue`,
/// and adds the offset `m` to every channel.
fn hue_cxm_to_rgb(hue: Fixed, c: Fixed, x: Fixed, m: Fixed) -> (r: Rgb<Fixed>)
    requires
        0 <= hue.raw <= SCALE,
        0 <= c.raw <= SCALE,
        0 <= x.raw <= SCALE,
        -SCALE <= m.raw <= SCALE,
    ensures
        r == sector_rgb(hue.raw as int, c.raw as int, x.raw as int, m.raw as int),
{
    let sector = 6 * hue.raw / SCALE % 6;
    let (red, green, blue) = if sector == 1 {
        (x.raw, c.raw, 0)
    } else if sector == 2 {
        (0, c.raw, x.raw)
    } else if sector == 3 {
        (0, x.raw, c.raw)
    } else if sector == 4 {
        (x.raw, 0, c.raw)
    } else if sector == 5 {
        (c.raw, 0, x.raw)
    } else {
        (c.raw, x.raw, 0)
    };
    Rgb::new(Fixed { raw: red + m.raw }, Fixed { raw: green + m.raw }, Fixed { raw: blue + m.raw })
}

/// Widening an RGB colour from bytes to unit values and narrowing it back gives the
/// colour again.
pub proof fn rgb_byte_round_trip(c: Rgb<u8>)
    ensures
        <Rgb<u8> as FromSpec<Rgb<Fixed>>>::from_spec(
            <Rgb<Fixed> as FromSpec<Rgb<u8>>>::from_spec(c),
        ) == c,
{
    byte_round_trip(c.red);
    byte_round_trip(c.green);
    byte_round_trip(c.blue);
}

/// A grey byte colour (all three channels equal) comes back unchanged from
/// widening, conversion to HSL, conversion back to RGB and narrowing.
pub proof fn grey_hsl_round_trip(c: Rgb<u8>)
    requires
        c.red == c.green,
        c.green == c.blue,
    ensures
        <Rgb<u8> as FromSpec<Rgb<Fixed>>>::from_spec(
            rgb_of_hsl(hsl_of_rgb(<Rgb<Fixed> as FromSpec<Rgb<u8>>>::from_spec(c))),
        ) == c,
{
    let f = <Rgb<Fixed> as FromSpec<Rgb<u8>>>::from_spec(c);
    byte_round_trip(c.red);
    let v = f.red.raw as int;
    assert(0 <= v <= SCALE);
    vstd::arithmetic::div_mod::lemma_fundamental_div_mod_converse(2 * (v + v) + 2, 4, v, 2);
    assert(div_round(v + v, 2) == v);
    let hsl = hsl_of_rgb(f);
    assert(hsl == Hsl { hue: Fixed { raw: 0 }, saturation: Fixed { raw: 0 }, lightness: f.red });
    let k = SCALE - abs_int(2 * v - SCALE);
    assert(k * 0 == 0);
    vstd::arithmetic::div_mod::lemma_fundamental_div_mod_converse(SCALE as int, 2 * SCALE, 0, SCALE as int);
    assert(div_round(0, SCALE as int) == 0);
    vstd::arithmetic::div_mod::lemma_fundamental_div_mod_converse(2, 4, 0, 2);
    assert(div_round(0, 2) == 0);
    assert(second_level(0, 0) == 0);
    assert((0int / (SCALE as int)) % 6 == 0);
    assert(rgb_of_hsl(hsl) == sector_rgb(0, 0, 0, v));
    assert(rgb_of_hsl(hsl) == f);
}

} // verus!
