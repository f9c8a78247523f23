use vstd::prelude::*;
use vstd::std_specs::convert::FromSpec;
use crate::color::{HasAlpha, HasntAlpha, IsColor, IsColorChannel};
use crate::fixed::{byte_of_fixed, byte_round_trip, fixed_of_byte, Fixed};
use crate::hsla::Hsla;
use crate::hsva::Hsva;
use crate::rgb::{rgb_of_hsl, rgb_of_hsv, Rgb};

verus! {

/// A colour in the RGB model with an alpha component.
#[derive(Clone, Copy, Debug, PartialEq, Eq, Structural)]
pub struct Rgba<T> {
    pub red: T,
    pub green: T,
    pub blue: T,
    pub alpha: T,
}

impl<T: IsColorChannel> IsColor for Rgba<T> {
    type Channel = T;
}

impl<T: IsColorChannel> HasAlpha for Rgba<T> {
    type Alphaless = Rgb<T>;

    open spec fn detach_alpha(self) -> (Rgb<T>, T) {
        (Rgb { red: self.red, green: self.green, blue: self.blue }, self.alpha)
    }

    fn split_alpha(self) -> (r: (Rgb<T>, T)) {
        let Rgba { red, green, blue, alpha } = self;
        (Rgb { red, green, blue }, alpha)
    }
}

impl<T> Rgba<T> {
    pub fn new(red: T, green: T, blue: T, alpha: T) -> (r: Self)
        ensures
            r == (Rgba { red, green, blue, alpha }),
    {
        Self { red, green, blue, alpha }
    }
}

impl<T: IsColorChannel> Default for Rgba<T> {
    /// Opaque black: every channel at `MIN` but alpha at `MAX`.
    fn default() -> (r: Self)
        ensures
            r == (Rgba {
                red: T::min_value(),
                green: T::min_value(),
                blue: T::min_value(),
                alpha: T::max_value(),
            }),
    {
        Self::new(T::lowest(), T::lowest(), T::lowest(), T::highest())
    }
}

impl<T: IsColorChannel> From<Rgb<T>> for Rgba<T> {
    /// The opaque colour: alpha at `MAX`.
    fn from(rgb: Rgb<T>) -> (r: Self) {
        let alpha = T::highest();
        rgb.with_alpha(alpha)
    }
}

impl<T: IsColorChannel> vstd::std_specs::convert::FromSpecImpl<Rgb<T>> for Rgba<T> {
    open spec fn obeys_from_spec() -> bool {
        true
    }

    open spec fn from_spec(v: Rgb<T>) -> Self {
        v.attach_alpha(T::max_value())
    }
}

impl From<Rgba<u8>> for Rgba<Fixed> {
    /// Each channel `v` becomes `v / 255`.
    fn from(c: Rgba<u8>) -> (r: Self) {
        Self::new(
            Fixed::from_byte(c.red),
            Fixed::from_byte(c.green),
            Fixed::from_byte(c.blue),
            Fixed::from_byte(c.alpha),
        )
    }
}

impl vstd::std_specs::convert::FromSpecImpl<Rgba<u8>> for Rgba<Fixed> {
    open spec fn obeys_from_spec() -> bool {
        true
    }

    open spec fn from_spec(v: Rgba<u8>) -> Self {
        Rgba {
            red: fixed_of_byte(v.red),
            green: fixed_of_byte(v.green),
            blue: fixed_of_byte(v.blue),
            alpha: fixed_of_byte(v.alpha),
        }
    }
}

impl From<Rgba<Fixed>> for Rgba<u8> {
    /// Each channel is clamped to `[0, 1]`, scaled by 255 and rounded.
    fn from(c: Rgba<Fixed>) -> (r: Self) {
        Self::new(
            c.red.to_byte(),
            c.green.to_byte(),
            c.blue.to_byte(),
            c.alpha.to_byte(),
        )
    }
}

impl vstd::std_specs::convert::FromSpecImpl<Rgba<Fixed>> for Rgba<u8> {
    open spec fn obeys_from_spec() -> bool {
        true
    }

    open spec fn from_spec(v: Rgba<Fixed>) -> Self {
        Rgba {
            red: byte_of_fixed(v.red),
            green: byte_of_fixed(v.green),
            blue: byte_of_fixed(v.blue),
            alpha: byte_of_fixed(v.alpha),
        }
    }
}

impl From<Hsla<Fixed>> for Rgba<Fixed> {
    /// Converts the colour without its alpha; the alpha is kept as it is.
    fn from(hsla: Hsla<Fixed>) -> (r: Self) {
        let (hsl, alpha) = hsla.split_alpha();
        Rgb::from(hsl).with_alpha(alpha)
    }
}

impl vstd::std_specs::convert::FromSpecImpl<Hsla<Fixed>> for Rgba<Fixed> {
    open spec fn obeys_from_spec() -> bool {
        true
    }

    open spec fn from_spec(v: Hsla<Fixed>) -> Self {
        rgb_of_hsl(v.detach_alpha().0).attach_alpha(v.alpha)
    }
}

impl From<Hsva<Fixed>> for Rgba<Fixed> {
    /// Converts the colour without its alpha; the alpha is kept as it is.
    fn from(hsva: Hsva<Fixed>) -> (r: Self) {
        let (hsv, alpha) = hsva.split_alpha();
        Rgb::from(hsv).with_alpha(alpha)
    }
}

impl vstd::std_specs::convert::FromSpecImpl<Hsva<Fixed>> for Rgba<Fixed> {
    open spec fn obeys_from_spec() -> bool {
        true
    }

    open spec fn from_spec(v: Hsva<Fixed>) -> Self {
        rgb_of_hsv(v.detach_alpha().0).attach_alpha(v.alpha)
    }
}

/// Widening an RGB colour with alpha from bytes to unit values and narrowing it back gives the
/// colour again.
pub proof fn rgba_byte_round_trip(c: Rgba<u8>)
    ensures
        <Rgba<u8> as FromSpec<Rgba<Fixed>>>::from_spec(
            <Rgba<Fixed> as FromSpec<Rgba<u8>>>::from_spec(c),
        ) == c,
{
    byte_round_trip(c.red);
    byte_round_trip(c.green);
    byte_round_trip(c.blue);
    byte_round_trip(c.alpha);
}

/// Appending an alpha to an RGB colour and splitting it off again gives back
/// the colour and the alpha; splitting a colour and appending its alpha again
/// gives back the colour.
pub proof fn rgb_alpha_round_trip<T: IsColorChannel>(c: Rgb<T>, alpha: T, d: Rgba<T>)
    ensures
        c.attach_alpha(alpha).detach_alpha() == (c, alpha),
        d.detach_alpha().0.attach_alpha(d.detach_alpha().1) == d,
{
}

} // verus!
