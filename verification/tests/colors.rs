use pagbar::bar::{color_hex, parse_color, Color};

#[test]
fn parse_upper_case_code() {
    assert_eq!(parse_color("#FF00AA"), Some(Color { r: 255, g: 0, b: 170 }));
}

#[test]
fn parse_lower_and_mixed_case_codes() {
    assert_eq!(parse_color("#ff00aa"), Some(Color { r: 255, g: 0, b: 170 }));
    assert_eq!(parse_color("#0a0B0c"), Some(Color { r: 10, g: 11, b: 12 }));
}

#[test]
fn parse_ignores_trailing_characters() {
    assert_eq!(parse_color("#112233zz"), Some(Color { r: 17, g: 34, b: 51 }));
}

#[test]
fn parse_rejects_missing_hash() {
    assert_eq!(parse_color("FF00AA0"), None);
}

#[test]
fn parse_rejects_short_input() {
    assert_eq!(parse_color("#FF00A"), None);
    assert_eq!(parse_color(""), None);
}

#[test]
fn parse_rejects_non_hex_digits() {
    assert_eq!(parse_color("#GG0000"), None);
    assert_eq!(parse_color("#+1+2+3"), None);
}

#[test]
fn format_uses_two_upper_case_digits_per_channel() {
    assert_eq!(color_hex(&Color { r: 10, g: 11, b: 12 }), "#0A0B0C");
    assert_eq!(color_hex(&Color { r: 255, g: 0, b: 170 }), "#FF00AA");
    assert_eq!(color_hex(&Color { r: 0, g: 0, b: 0 }), "#000000");
}

#[test]
fn format_then_parse_round_trips() {
    for value in [0u8, 1, 9, 10, 15, 16, 100, 150, 200, 255] {
        let c = Color { r: value, g: value.wrapping_mul(3), b: 255 - value };
        assert_eq!(parse_color(&color_hex(&c)), Some(c));
    }
}
