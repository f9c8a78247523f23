use colours::{Fixed, Hsl, Hsla, Hsv, Hsva, Rgb, Rgba, SCALE};

#[test]
fn hsl_from_rgb() {
    assert_eq!(
        Hsl::<u8>::from(Hsl::from(Rgb::<Fixed>::from(Rgb::new(84u8, 37, 181)))),
        Hsl::new(184u8, 168, 109)
    );
}

#[test]
fn hsl_from_hsv() {
    assert_eq!(
        Hsl::<u8>::from(Hsl::from(Hsv::<Fixed>::from(Hsv::new(184u8, 203, 181)))),
        Hsl::new(184u8, 169, 109)
    );
}

#[test]
fn hsv_from_rgb() {
    assert_eq!(
        Hsv::<u8>::from(Hsv::from(Rgb::<Fixed>::from(Rgb::new(84u8, 37, 181)))),
        Hsv::new(184u8, 203, 181)
    );
}

#[test]
fn hsv_from_hsl() {
    assert_eq!(
        Hsv::<u8>::from(Hsv::from(Hsl::<Fixed>::from(Hsl::new(184u8, 169, 109)))),
        Hsv::new(184u8, 203, 181)
    );
}

#[test]
fn from_u8() {
    assert_eq!(
        Rgb::<Fixed>::from(Rgb::<u8>::new(84, 37, 181)),
        Rgb::new(
            Fixed::from_ratio(84, 255),
            Fixed::from_ratio(37, 255),
            Fixed::from_ratio(181, 255)
        )
    );
}

#[test]
fn from_f32() {
    assert_eq!(
        Rgb::<u8>::from(Rgb::<Fixed>::new(
            Fixed::from_ratio(84, 255),
            Fixed::from_ratio(37, 255),
            Fixed::from_ratio(181, 255)
        )),
        Rgb::new(84, 37, 181)
    );
}

#[test]
fn rgb_from_hsl() {
    assert_eq!(
        Rgb::<u8>::from(Rgb::from(Hsl::<Fixed>::from(Hsl::new(184u8, 168, 109)))),
        Rgb::new(84u8, 37, 181)
    );
}

#[test]
fn rgb_from_hsv() {
    assert_eq!(
        Rgb::<u8>::from(Rgb::from(Hsv::<Fixed>::from(Hsv::new(12u8, 107, 66)))),
        Rgb::new(66u8, 46, 38)
    );
}

#[test]
fn achromatic_rgb_has_no_hue_or_saturation() {
    for v in [0u8, 1, 77, 128, 254, 255] {
        let hsl = Hsl::<u8>::from(Hsl::from(Rgb::<Fixed>::from(Rgb::new(v, v, v))));
        assert_eq!(hsl, Hsl::new(0, 0, v));
        let hsv = Hsv::<u8>::from(Hsv::from(Rgb::<Fixed>::from(Rgb::new(v, v, v))));
        assert_eq!(hsv, Hsv::new(0, 0, v));
    }
}

#[test]
fn black_rgb_is_black_hsv() {
    let black = Hsv::from(Rgb::<Fixed>::from(Rgb::new(0u8, 0, 0)));
    assert_eq!(black, Hsv::new(Fixed { raw: 0 }, Fixed { raw: 0 }, Fixed { raw: 0 }));
}

#[test]
fn rgb_to_hsl_exact_value() {
    assert_eq!(
        Hsl::<u8>::from(Hsl::from(Rgb::<Fixed>::from(Rgb::new(200u8, 100, 50)))),
        Hsl::new(14u8, 153, 125)
    );
}

#[test]
fn hsv_to_rgb_sectors() {
    let full = |hue: i64| {
        Rgb::<u8>::from(Rgb::from(Hsv::new(Fixed { raw: hue }, Fixed { raw: SCALE }, Fixed { raw: SCALE })))
    };
    assert_eq!(full(0), Rgb::new(255, 0, 0));
    assert_eq!(full(SCALE / 4), Rgb::new(128, 255, 0));
    assert_eq!(full(SCALE / 2), Rgb::new(0, 255, 255));
    assert_eq!(full(SCALE), Rgb::new(255, 0, 0));
    // a hue beyond one turn wraps round
    assert_eq!(full(SCALE + SCALE / 4), Rgb::new(128, 255, 0));
    assert_eq!(full(-(SCALE / 2)), Rgb::new(0, 255, 255));
}

#[test]
fn zero_lightness_and_value_give_zero_saturation() {
    let hsl = Hsl::from(Hsv::new(Fixed { raw: 123 }, Fixed { raw: SCALE / 2 }, Fixed { raw: 0 }));
    assert_eq!(hsl, Hsl::new(Fixed { raw: 123 }, Fixed { raw: 0 }, Fixed { raw: 0 }));
    let hsv = Hsv::from(Hsl::new(Fixed { raw: 123 }, Fixed { raw: SCALE / 2 }, Fixed { raw: 0 }));
    assert_eq!(hsv, Hsv::new(Fixed { raw: 123 }, Fixed { raw: 0 }, Fixed { raw: 0 }));
}

#[test]
fn out_of_range_inputs_are_clamped() {
    let over = Rgb::new(Fixed { raw: 3 * SCALE }, Fixed { raw: -SCALE }, Fixed { raw: -5 });
    let hsl = Hsl::from(over);
    assert_eq!(hsl, Hsl::from(Rgb::new(Fixed { raw: SCALE }, Fixed { raw: 0 }, Fixed { raw: 0 })));
    assert_eq!(Rgb::<u8>::from(over), Rgb::new(255, 0, 0));
}

#[test]
fn alpha_conversions_keep_alpha() {
    let rgba = Rgba::<Fixed>::from(Rgba::new(84u8, 37, 181, 99));
    let hsla = Hsla::from(rgba);
    assert_eq!(Hsla::<u8>::from(hsla), Hsla::new(184, 168, 109, 99));
    let hsva = Hsva::from(hsla);
    assert_eq!(Hsva::<u8>::from(hsva), Hsva::new(184, 203, 181, 99));
    assert_eq!(Rgba::<u8>::from(Rgba::from(hsva)), Rgba::new(84, 37, 181, 99));
    assert_eq!(Rgba::<u8>::from(Rgba::from(hsla)), Rgba::new(84, 37, 181, 99));
    assert_eq!(Hsla::<u8>::from(Hsla::from(hsva)), Hsla::new(184, 168, 109, 99));
    assert_eq!(Hsva::<u8>::from(Hsva::from(rgba)), Hsva::new(184, 203, 181, 99));
}

#[test]
fn model_round_trip_within_one() {
    let mut v: u32 = 0;
    while v < 256 * 256 * 256 {
        let c = Rgb::new((v >> 16) as u8, (v >> 8) as u8, v as u8);
        let back = Rgb::<u8>::from(Rgb::from(Hsl::from(Rgb::<Fixed>::from(c))));
        assert!((back.red as i32 - c.red as i32).abs() <= 1, "{:?} {:?}", c, back);
        assert!((back.green as i32 - c.green as i32).abs() <= 1, "{:?} {:?}", c, back);
        assert!((back.blue as i32 - c.blue as i32).abs() <= 1, "{:?} {:?}", c, back);
        let back = Rgb::<u8>::from(Rgb::from(Hsv::from(Rgb::<Fixed>::from(c))));
        assert!((back.red as i32 - c.red as i32).abs() <= 1, "{:?} {:?}", c, back);
        assert!((back.green as i32 - c.green as i32).abs() <= 1, "{:?} {:?}", c, back);
        assert!((back.blue as i32 - c.blue as i32).abs() <= 1, "{:?} {:?}", c, back);
        v += 251;
    }
}

#[test]
fn model_round_trip_literal() {
    let c = Rgb::new(84u8, 37, 181);
    assert_eq!(Rgb::<u8>::from(Rgb::from(Hsl::from(Rgb::<Fixed>::from(c)))), c);
}

#[test]
fn hue_rounding_up_to_a_full_turn_wraps_to_zero() {
    let c = Rgb::new(Fixed { raw: SCALE }, Fixed { raw: 0 }, Fixed { raw: 1 });
    assert_eq!(Hsl::from(c).hue, Fixed { raw: 0 });
    assert_eq!(Hsv::from(c).hue, Fixed { raw: 0 });
    let c = Rgb::new(Fixed { raw: SCALE }, Fixed { raw: 0 }, Fixed { raw: SCALE / 2 });
    let h = Hsl::from(c).hue.raw;
    assert!(0 <= h && h < SCALE);
    assert_eq!(Hsv::from(c).hue.raw, h);
}
