use vstd::prelude::*;
use vstd::std_specs::convert::FromSpec;
use crate::color::{HasAlpha, HasntAlpha, IsColor, IsColorChannel};
use crate::fixed::{byte_of_fixed, byte_round_trip, fixed_of_byte, Fixed};
use crate::hsla::Hsla;
use crate::hsv::{hsv_of_hsl, hsv_of_rgb, Hsv};
use crate::rgba::Rgba;

verus! {

/// A colour in the HSV model with an alpha component.
#[derive(Clone, Copy, Debug, PartialEq, Eq, Structural)]
pub struct Hsva<T> {
    pub hue: T,
    pub saturation: T,
    pub value: T,
    pub alpha: T,
}

impl<T: IsColorChannel> IsColor for Hsva<T> {
    type Channel = T;
}

impl<T: IsColorChannel> HasAlpha for Hsva<T> {
    type Alphaless = Hsv<T>;

    open spec fn detach_alpha(self) -> (Hsv<T>, T) {
        (Hsv { hue: self.hue, saturation: self.saturation, value: self.value }, self.alpha)
    }

    fn split_alpha(self) -> (r: (Hsv<T>, T)) {
        let Hsva { hue, saturation, value, alpha } = self;
        (Hsv { hue, saturation, value }, alpha)
    }
}

impl<T> Hsva<T> {
    pub fn new(hue: T, saturation: T, value: T, alpha: T) -> (r: Self)
        ensures
            r == (Hsva { hue, saturation, value, alpha }),
    {
        Self { hue, saturation, value, alpha }
    }
}

impl<T: IsColorChannel> Default for Hsva<T> {
    /// Opaque black: every channel at `MIN` but alpha at `MAX`.
    fn default() -> (r: Self)
        ensures
            r == (Hsva {
                hue: T::min_value(),
                saturation: T::min_value(),
                value: T::min_value(),
                alpha: T::max_value(),
            }),
    {
        Self::new(T::lowest(), T::lowest(), T::lowest(), T::highest())
    }
}

impl<T: IsColorChannel> From<Hsv<T>> for Hsva<T> {
    /// The opaque colour: alpha at `MAX`.
    fn from(hsv: Hsv<T>) -> (r: Self) {
        let alpha = T::highest();
        hsv.with_alpha(alpha)
    }
}

impl<T: IsColorChannel> vstd::std_specs::convert::FromSpecImpl<Hsv<T>> for Hsva<T> {
    open spec fn obeys_from_spec() -> bool {
        true
    }

    open spec fn from_spec(v: Hsv<T>) -> Self {
        v.attach_alpha(T::max_value())
    }
}

impl From<Hsva<u8>> for Hsva<Fixed> {
    /// Each channel `v` becomes `v / 255`.
    fn from(c: Hsva<u8>) -> (r: Self) {
        Self::new(
            Fixed::from_byte(c.hue),
            Fixed::from_byte(c.saturation),
            Fixed::from_byte(c.value),
            Fixed::from_byte(c.alpha),
        )
    }
}

impl vstd::std_specs::convert::FromSpecImpl<Hsva<u8>> for Hsva<Fixed> {
    open spec fn obeys_from_spec() -> bool {
        true
    }

    open spec fn from_spec(v: Hsva<u8>) -> Self {
        Hsva {
            hue: fixed_of_byte(v.hue),
            saturation: fixed_of_byte(v.saturation),
            value: fixed_of_byte(v.value),
            alpha: fixed_of_byte(v.alpha),
        }
    }
}

impl From<Hsva<Fixed>> for Hsva<u8> {
    /// Each channel is clamped to `[0, 1]`, scaled by 255 and rounded.
    fn from(c: Hsva<Fixed>) -> (r: Self) {
        Self::new(
            c.hue.to_byte(),
            c.saturation.to_byte(),
            c.value.to_byte(),
            c.alpha.to_byte(),
        )
    }
}

impl vstd::std_specs::convert::FromSpecImpl<Hsva<Fixed>> for Hsva<u8> {
    open spec fn obeys_from_spec() -> bool {
        true
    }

    open spec fn from_spec(v: Hsva<Fixed>) -> Self {
        Hsva {
            hue: byte_of_fixed(v.hue),
            saturation: byte_of_fixed(v.saturation),
            value: byte_of_fixed(v.value),
            alpha: byte_of_fixed(v.alpha),
        }
    }
}

impl From<Hsla<Fixed>> for Hsva<Fixed> {
    /// Converts the colour without its alpha; the alpha is kept as it is.
    fn from(hsla: Hsla<Fixed>) -> (r: Self) {
        let (hsl, alpha) = hsla.split_alpha();
        Hsv::from(hsl).with_alpha(alpha)
    }
}

impl vstd::std_specs::convert::FromSpecImpl<Hsla<Fixed>> for Hsva<Fixed> {
    open spec fn obeys_from_spec() -> bool {
        true
    }

    open spec fn from_spec(v: Hsla<Fixed>) -> Self {
        hsv_of_hsl(v.detach_alpha().0).attach_alpha(v.alpha)
    }
}

impl From<Rgba<Fixed>> for Hsva<Fixed> {
    /// Converts the colour without its alpha; the alpha is kept as it is.
    fn from(rgba: Rgba<Fixed>) -> (r: Self) {
        let (rgb, alpha) = rgba.split_alpha();
        Hsv::from(rgb).with_alpha(alpha)
    }
}

impl vstd::std_specs::convert::FromSpecImpl<Rgba<Fixed>> for Hsva<Fixed> {
    open spec fn obeys_from_spec() -> bool {
        true
    }

    open spec fn from_spec(v: Rgba<Fixed>) -> Self {
        hsv_of_rgb(v.detach_alpha().0).attach_alpha(v.alpha)
    }
}

/// Widening an HSV colour with alpha from bytes to unit values and narrowing it back gives the
/// colour again.
pub proof fn hsva_byte_round_trip(c: Hsva<u8>)
    ensures
        <Hsva<u8> as FromSpec<Hsva<Fixed>>>::from_spec(
            <Hsva<Fixed> as FromSpec<Hsva<u8>>>::from_spec(c),
        ) == c,
{
    byte_round_trip(c.hue);
    byte_round_trip(c.saturation);
    byte_round_trip(c.value);
    byte_round_trip(c.alpha);
}

/// Appending an alpha to an HSV colour and splitting it off again gives back
/// the colour and the alpha; splitting a colour and appending its alpha again
/// gives back the colour.
pub proof fn hsv_alpha_round_trip<T: IsColorChannel>(c: Hsv<T>, alpha: T, d: Hsva<T>)
    ensures
        c.attach_alpha(alpha).detach_alpha() == (c, alpha),
        d.detach_alpha().0.attach_alpha(d.detach_alpha().1) == d,
{
}

} // verus!
