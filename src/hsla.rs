use vstd::prelude::*;
use vstd::std_specs::convert::FromSpec;
use crate::color::{HasAlpha, HasntAlpha, IsColor, IsColorChannel};
use crate::fixed::{byte_of_fixed, byte_round_trip, fixed_of_byte, Fixed};
use crate::hsl::{hsl_of_hsv, hsl_of_rgb, Hsl};
use crate::hsva::Hsva;
use crate::rgba::Rgba;

verus! {

/// A colour in the HSL model with an alpha component.
#[derive(Clone, Copy, Debug, PartialEq, Eq, Structural)]
pub struct Hsla<T> {
    pub hue: T,
    pub saturation: T,
    pub lightness: T,
    pub alpha: T,
}

impl<T: IsColorChannel> IsColor for Hsla<T> {
    type Channel = T;
}

impl<T: IsColorChannel> HasAlpha for Hsla<T> {
    type Alphaless = Hsl<T>;

    open spec fn detach_alpha(self) -> (Hsl<T>, T) {
        (Hsl { hue: self.hue, saturation: self.saturation, lightness: self.lightness }, self.alpha)
    }

    fn split_alpha(self) -> (r: (Hsl<T>, T)) {
        let Hsla { hue, saturation, lightness, alpha } = self;
        (Hsl { hue, saturation, lightness }, alpha)
    }
}

impl<T> Hsla<T> {
    pub fn new(hue: T, saturation: T, lightness: T, alpha: T) -> (r: Self)
        ensures
            r == (Hsla { hue, saturation, lightness, alpha }),
    {
        Self { hue, saturation, lightness, alpha }
    }
}

impl<T: IsColorChannel> Default for Hsla<T> {
    /// Opaque black: every channel at `MIN` but alpha at `MAX`.
    fn default() -> (r: Self)
        ensures
            r == (Hsla {
                hue: T::min_value(),
                saturation: T::min_value(),
                lightness: T::min_value(),
                alpha: T::max_value(),
            }),
    {
        Self::new(T::lowest(), T::lowest(), T::lowest(), T::highest())
    }
}

impl<T: IsColorChannel> From<Hsl<T>> for Hsla<T> {
    /// The opaque colour: alpha at `MAX`.
    fn from(hsl: Hsl<T>) -> (r: Self) {
        let alpha = T::highest();
        hsl.with_alpha(alpha)
    }
}

impl<T: IsColorChannel> vstd::std_specs::convert::FromSpecImpl<Hsl<T>> for Hsla<T> {
    open spec fn obeys_from_spec() -> bool {
        true
    }

    open spec fn from_spec(v: Hsl<T>) -> Self {
        v.attach_alpha(T::max_value())
    }
}

impl From<Hsla<u8>> for Hsla<Fixed> {
    /// Each channel `v` becomes `v / 255`.
    fn from(c: Hsla<u8>) -> (r: Self) {
        Self::new(
            Fixed::from_byte(c.hue),
            Fixed::from_byte(c.saturation),
            Fixed::from_byte(c.lightness),
            Fixed::from_byte(c.alpha),
        )
    }
}

impl vstd::std_specs::convert::FromSpecImpl<Hsla<u8>> for Hsla<Fixed> {
    open spec fn obeys_from_spec() -> bool {
        true
    }

    open spec fn from_spec(v: Hsla<u8>) -> Self {
        Hsla {
            hue: fixed_of_byte(v.hue),
            saturation: fixed_of_byte(v.saturation),
            lightness: fixed_of_byte(v.lightness),
            alpha: fixed_of_byte(v.alpha),
        }
    }
}

impl From<Hsla<Fixed>> for Hsla<u8> {
    /// Each channel is clamped to `[0, 1]`, scaled by 255 and rounded.
    fn from(c: Hsla<Fixed>) -> (r: Self) {
        Self::new(
            c.hue.to_byte(),
            c.saturation.to_byte(),
            c.lightness.to_byte(),
            c.alpha.to_byte(),
        )
    }
}

impl vstd::std_specs::convert::FromSpecImpl<Hsla<Fixed>> for Hsla<u8> {
    open spec fn obeys_from_spec() -> bool {
        true
    }

    open spec fn from_spec(v: Hsla<Fixed>) -> Self {
        Hsla {
            hue: byte_of_fixed(v.hue),
            saturation: byte_of_fixed(v.saturation),
            lightness: byte_of_fixed(v.lightness),
            alpha: byte_of_fixed(v.alpha),
        }
    }
}

impl From<Hsva<Fixed>> for Hsla<Fixed> {
    /// Converts the colour without its alpha; the alpha is kept as it is.
    fn from(hsva: Hsva<Fixed>) -> (r: Self) {
        let (hsv, alpha) = hsva.split_alpha();
        Hsl::from(hsv).with_alpha(alpha)
    }
}

impl vstd::std_specs::convert::FromSpecImpl<Hsva<Fixed>> for Hsla<Fixed> {
    open spec fn obeys_from_spec() -> bool {
        true
    }

    open spec fn from_spec(v: Hsva<Fixed>) -> Self {
        hsl_of_hsv(v.detach_alpha().0).attach_alpha(v.alpha)
    }
}

impl From<Rgba<Fixed>> for Hsla<Fixed> {
    /// Converts the colour without its alpha; the alpha is kept as it is.
    fn from(rgba: Rgba<Fixed>) -> (r: Self) {
        let (rgb, alpha) = rgba.split_alpha();
        Hsl::from(rgb).with_alpha(alpha)
    }
}

impl vstd::std_specs::convert::FromSpecImpl<Rgba<Fixed>> for Hsla<Fixed> {
    open spec fn obeys_from_spec() -> bool {
        true
    }

    open spec fn from_spec(v: Rgba<Fixed>) -> Self {
        hsl_of_rgb(v.detach_alpha().0).attach_alpha(v.alpha)
    }
}

/// Widening an HSL colour with alpha from bytes to unit values and narrowing it back gives the
/// colour again.
pub proof fn hsla_byte_round_trip(c: Hsla<u8>)
    ensures
        <Hsla<u8> as FromSpec<Hsla<Fixed>>>::from_spec(
            <Hsla<Fixed> as FromSpec<Hsla<u8>>>::from_spec(c),
        ) == c,
{
    byte_round_trip(c.hue);
    byte_round_trip(c.saturation);
    byte_round_trip(c.lightness);
    byte_round_trip(c.alpha);
}

/// Appending an alpha to an HSL colour and splitting it off again gives back
/// the colour and the alpha; splitting a colour and appending its alpha again
/// gives back the colour.
pub proof fn hsl_alpha_round_trip<T: IsColorChannel>(c: Hsl<T>, alpha: T, d: Hsla<T>)
    ensures
        c.attach_alpha(alpha).detach_alpha() == (c, alpha),
        d.detach_alpha().0.attach_alpha(d.detach_alpha().1) == d,
{
}

} // verus!
