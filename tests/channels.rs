use colours::{
    Fixed, HasAlpha, HasntAlpha, Hsl, Hsla, Hsv, Hsva, IsColorChannel, Rgb, Rgba, SCALE,
};

#[test]
fn byte_round_trip_every_value() {
    for v in 0..=255u8 {
        assert_eq!(Fixed::from_byte(v).to_byte(), v);
        let c = Rgba::new(v, 255 - v, v / 2, v ^ 0x55);
        assert_eq!(Rgba::<u8>::from(Rgba::<Fixed>::from(c)), c);
        let c = Hsv::new(v, 255 - v, v / 3);
        assert_eq!(Hsv::<u8>::from(Hsv::<Fixed>::from(c)), c);
    }
}

#[test]
fn byte_widening_exact_values() {
    assert_eq!(Fixed::from_byte(0).raw, 0);
    assert_eq!(Fixed::from_byte(1).raw, 65793);
    assert_eq!(Fixed::from_byte(255).raw, SCALE);
    assert_eq!(Fixed { raw: SCALE / 2 }.to_byte(), 128);
    assert_eq!(Fixed { raw: 2 * SCALE }.to_byte(), 255);
    assert_eq!(Fixed { raw: -1 }.to_byte(), 0);
}

#[test]
fn from_ratio_rounds_to_nearest() {
    assert_eq!(Fixed::from_ratio(1, 2).raw, SCALE / 2);
    assert_eq!(Fixed::from_ratio(1, 3).raw, 5592405);
    assert_eq!(Fixed::from_ratio(2, 3).raw, 11184811);
}

#[test]
fn clamp_limits_linear_channels() {
    assert_eq!(Fixed { raw: -5 }.clamp_channel(), Fixed { raw: 0 });
    assert_eq!(Fixed { raw: SCALE + 7 }.clamp_channel(), Fixed { raw: SCALE });
    assert_eq!(Fixed { raw: 1234 }.clamp_channel(), Fixed { raw: 1234 });
    let once = Fixed { raw: -99 }.clamp_channel();
    assert_eq!(once.clamp_channel(), once);
    assert_eq!(200u8.clamp_channel(), 200);
    assert_eq!(Fixed::lowest(), Fixed { raw: 0 });
    assert_eq!(Fixed::highest(), Fixed { raw: SCALE });
    assert_eq!(u8::lowest(), 0);
    assert_eq!(u8::highest(), 255);
}

#[test]
fn unwind_wraps_hue() {
    assert_eq!(Fixed { raw: -(SCALE / 4) }.unwind_channel(), Fixed { raw: 3 * (SCALE / 4) });
    assert_eq!(Fixed { raw: -Fixed::from_ratio(1, 10).raw }.unwind_channel(), Fixed::from_ratio(9, 10));
    assert_eq!(Fixed { raw: SCALE + SCALE / 2 }.unwind_channel(), Fixed { raw: SCALE / 2 });
    assert_eq!(Fixed { raw: 2 * SCALE }.unwind_channel(), Fixed { raw: 0 });
    assert_eq!(Fixed { raw: SCALE }.unwind_channel(), Fixed { raw: SCALE });
    assert_eq!(Fixed { raw: 77 }.unwind_channel(), Fixed { raw: 77 });
    assert_eq!(250u8.unwind_channel(), 250);
    for raw in [-3 * SCALE - 1, -1, SCALE + 1, 5 * SCALE + 3, i64::MIN, i64::MAX] {
        let w = Fixed { raw }.unwind_channel().raw;
        assert!(0 <= w && w < SCALE);
    }
}

#[test]
fn defaults_are_black() {
    assert_eq!(Rgb::<u8>::default(), Rgb::new(0, 0, 0));
    assert_eq!(Hsl::<u8>::default(), Hsl::new(0, 0, 0));
    assert_eq!(Hsv::<Fixed>::default(), Hsv::new(Fixed { raw: 0 }, Fixed { raw: 0 }, Fixed { raw: 0 }));
}

#[test]
fn alpha_defaults_are_opaque_black() {
    assert_eq!(Rgba::<u8>::default(), Rgba::new(0, 0, 0, 255));
    assert_eq!(Hsla::<u8>::default(), Hsla::new(0, 0, 0, 255));
    assert_eq!(Hsva::<u8>::default(), Hsva::new(0, 0, 0, 255));
    let zero = Fixed { raw: 0 };
    assert_eq!(Rgba::<Fixed>::default(), Rgba::new(zero, zero, zero, Fixed { raw: SCALE }));
    assert_eq!(Hsla::<Fixed>::default(), Hsla::new(zero, zero, zero, Fixed { raw: SCALE }));
    assert_eq!(Hsva::<Fixed>::default(), Hsva::new(zero, zero, zero, Fixed { raw: SCALE }));
}

#[test]
fn alpha_split_and_join_round_trip() {
    let rgb = Rgb::new(1u8, 2, 3);
    assert_eq!(rgb.with_alpha(4), Rgba::new(1, 2, 3, 4));
    assert_eq!(rgb.with_alpha(4).split_alpha(), (rgb, 4));
    let hsl = Hsl::new(5u8, 6, 7);
    assert_eq!(hsl.with_alpha(8).split_alpha(), (hsl, 8));
    let hsv = Hsv::new(Fixed { raw: -1 }, Fixed { raw: 2 }, Fixed { raw: 3 });
    assert_eq!(hsv.with_alpha(Fixed { raw: 9 }).split_alpha(), (hsv, Fixed { raw: 9 }));
    let hsva = Hsva::new(10u8, 11, 12, 13);
    assert_eq!(hsva.without_alpha(), Hsv::new(10, 11, 12));
    assert_eq!(hsva.only_alpha(), 13);
    let (c, a) = hsva.split_alpha();
    assert_eq!(c.with_alpha(a), hsva);
}

#[test]
fn alpha_from_conversions() {
    assert_eq!(Hsla::from(Hsl::new(1u8, 2, 3)), Hsla::new(1, 2, 3, 255));
    assert_eq!(Rgba::from(Rgb::new(1u8, 2, 3)), Rgba::new(1, 2, 3, 255));
    assert_eq!(Hsva::from(Hsv::new(1u8, 2, 3)), Hsva::new(1, 2, 3, 255));
    assert_eq!(Hsl::from(Hsla::new(1u8, 2, 3, 4)), Hsl::new(1, 2, 3));
    assert_eq!(Rgb::from(Rgba::new(1u8, 2, 3, 4)), Rgb::new(1, 2, 3));
    assert_eq!(Hsv::from(Hsva::new(1u8, 2, 3, 4)), Hsv::new(1, 2, 3));
}
