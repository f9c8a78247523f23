use vstd::prelude::*;

verus! {

/// Clamps `x` into the closed interval `[lo, hi]`.
pub open spec fn clamp_int(x: int, lo: int, hi: int) -> int {
    if x < lo {
        lo
    } else if x > hi {
        hi
    } else {
        x
    }
}

/// Clamping a clamped value changes it no further, and clamping leaves a
/// value in `[MIN, MAX]` as it is.
pub proof fn clamp_is_idempotent<T: IsColorChannel>(x: T)
    requires
        T::min_level() <= T::max_level(),
    ensures
        clamp_int(
            clamp_int(x.level(), T::min_level(), T::max_level()),
            T::min_level(),
            T::max_level(),
        ) == clamp_int(x.level(), T::min_level(), T::max_level()),
        T::min_level() <= x.level() <= T::max_level() ==> clamp_int(
            x.level(),
            T::min_level(),
            T::max_level(),
        ) == x.level(),
{
}

/// Something which can be treated as a colour.
pub trait IsColor {
    type Channel: IsColorChannel;
}

/// Something which can be a colour channel.
pub trait IsColorChannel: Sized + Copy {
    /// The numeric level of a channel value, in the representation's own steps.
    spec fn level(self) -> int;

    /// The level of the lowest valid linear value.
    spec fn min_level() -> int;

    /// The level of the highest valid linear value.
    spec fn max_level() -> int;

    /// The level that wrapping a value of level `x` around the hue circle gives.
    spec fn unwind_level(x: int) -> int;

    /// `MIN`, the lowest valid linear value.
    spec fn min_value() -> Self;

    /// `MAX`, the highest valid linear value.
    spec fn max_value() -> Self;

    /// Gives `MIN`.
    fn lowest() -> (r: Self)
        ensures
            r == Self::min_value(),
            r.level() == Self::min_level(),
    ;

    /// Gives `MAX`.
    fn highest() -> (r: Self)
        ensures
            r == Self::max_value(),
            r.level() == Self::max_level(),
    ;

    /// Limits a linear value to `[MIN, MAX]`.
    fn clamp_channel(self) -> (r: Self)
        ensures
            r.level() == clamp_int(self.level(), Self::min_level(), Self::max_level()),
    ;

    /// Wraps a circular (hue) value around its range.
    fn unwind_channel(self) -> (r: Self)
        ensures
            r.level() == Self::unwind_level(self.level()),
    ;
}

/// A colour which has an alpha component.
pub trait HasAlpha: IsColor + Sized {
    /// The colour of the same kind without the alpha component.
    type Alphaless: HasntAlpha;

    /// The colour without its alpha, and the alpha.
    spec fn detach_alpha(self) -> (Self::Alphaless, Self::Channel);

    /// Splits the alpha component from the colour.
    fn split_alpha(self) -> (r: (Self::Alphaless, Self::Channel))
        ensures
            r == self.detach_alpha(),
    ;

    /// Removes the alpha component of the colour.
    fn without_alpha(self) -> (r: Self::Alphaless)
        ensures
            r == self.detach_alpha().0,
    {
        self.split_alpha().0
    }

    /// Extracts the alpha component of the colour.
    fn only_alpha(self) -> (r: Self::Channel)
        ensures
            r == self.detach_alpha().1,
    {
        self.split_alpha().1
    }
}

/// A colour which has no alpha component.
pub trait HasntAlpha: IsColor + Sized {
    /// The colour of the same kind with an alpha component (a `HasAlpha`
    /// type; the bound is left off, as it would make the two traits cyclic).
    type Alphaful;

    /// The colour with `alpha` appended.
    spec fn attach_alpha(self, alpha: Self::Channel) -> Self::Alphaful;

    /// Appends an alpha component to the colour.
    fn with_alpha(self, alpha: Self::Channel) -> (r: Self::Alphaful)
        ensures
            r == self.attach_alpha(alpha),
    ;
}

impl IsColorChannel for u8 {
    open spec fn level(self) -> int {
        self as int
    }

    open spec fn min_level() -> int {
        0
    }

    open spec fn max_level() -> int {
        255
    }

    open spec fn unwind_level(x: int) -> int {
        x
    }

    open spec fn min_value() -> u8 {
        0
    }

    open spec fn max_value() -> u8 {
        255
    }

    fn lowest() -> (r: u8) {
        0
    }

    fn highest() -> (r: u8) {
        255
    }

    /// Every byte already lies in `[0, 255]`.
    fn clamp_channel(self) -> (r: u8) {
        self
    }

    /// A byte hue is never out of range, so wrapping leaves it as it is.

    fn unwind_channel(self) -> (r: u8) {
        self
    }
}

} // verus!
