//! Generic colour values in the RGB, HSL and HSV models, with and without an
//! alpha channel, over an 8-bit channel or a fixed-point unit channel.
//!
//! Conversions between the models work on the unit channel [`Fixed`]; byte
//! colours are widened to it first and narrowed back afterwards.
mod color;
mod fixed;
mod hsl;
mod hsla;
mod hsv;
mod hsva;
mod model;
mod rgb;
mod rgba;

pub use self::color::{clamp_int, clamp_is_idempotent, HasAlpha, HasntAlpha, IsColor, IsColorChannel};
pub use self::fixed::{
    byte_of_fixed, byte_round_trip, byte_to_level, div_round, fixed_of_byte, lemma_wrap_on_circle,
    level_to_byte, wrap_level, Fixed, SCALE,
};
pub use self::hsl::{hsl_byte_round_trip, hsl_of_hsv, hsl_of_rgb, Hsl};
pub use self::hsla::{hsl_alpha_round_trip, hsla_byte_round_trip, Hsla};
pub use self::model::rgb_hue_below_one_turn;
pub use self::hsv::{hsv_byte_round_trip, hsv_of_hsl, hsv_of_rgb, Hsv};
pub use self::hsva::{hsv_alpha_round_trip, hsva_byte_round_trip, Hsva};
pub use self::rgb::{grey_hsl_round_trip, rgb_byte_round_trip, rgb_of_hsl, rgb_of_hsv, Rgb};
pub use self::rgba::{rgb_alpha_round_trip, rgba_byte_round_trip, Rgba};
