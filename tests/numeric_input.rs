use iced_gif_maker::numeric_input::{input_change, parse_decimal_up_to, Unsigned};

const SAMPLES: [&str; 16] = [
    "", "0", "7", "480", "+480", "+", "-1", "-0", "0480", "65535", "65536", "1a", " 1", "1 ",
    "99999999999999999999999999999999999999999", "\u{0663}",
];

#[test]
fn u16_reading_matches_std() {
    for s in SAMPLES {
        assert_eq!(u16::parse_decimal(s), s.parse::<u16>().ok(), "text {:?}", s);
    }
}

#[test]
fn every_width_matches_std() {
    for s in SAMPLES {
        assert_eq!(u8::parse_decimal(s), s.parse::<u8>().ok(), "text {:?}", s);
        assert_eq!(u32::parse_decimal(s), s.parse::<u32>().ok(), "text {:?}", s);
        assert_eq!(u64::parse_decimal(s), s.parse::<u64>().ok(), "text {:?}", s);
        assert_eq!(u128::parse_decimal(s), s.parse::<u128>().ok(), "text {:?}", s);
    }
}

#[test]
fn largest_values_fit_and_one_more_does_not() {
    assert_eq!(u8::parse_decimal("255"), Some(255));
    assert_eq!(u8::parse_decimal("256"), None);
    assert_eq!(
        u128::parse_decimal("340282366920938463463374607431768211455"),
        Some(u128::MAX)
    );
    assert_eq!(u128::parse_decimal("340282366920938463463374607431768211456"), None);
    assert_eq!(parse_decimal_up_to("1000", 999), None);
    assert_eq!(parse_decimal_up_to("999", 999), Some(999));
}

#[test]
fn field_changes() {
    assert_eq!(input_change::<u16>(""), Some(None));
    assert_eq!(input_change::<u16>("320"), Some(Some(320)));
    assert_eq!(input_change::<u16>("+7"), Some(Some(7)));
    assert_eq!(input_change::<u16>("32x"), None);
    assert_eq!(input_change::<u16>("70000"), None);
}
