use obsidian_ui::colors::{parse_hex_color, Color, COLOR_ONE};
use obsidian_ui::style::ColorParam;

#[test]
fn long_form_with_hash() {
    let c = parse_hex_color("#ff0000").unwrap();
    assert_eq!(c, Color { red: COLOR_ONE, green: 0, blue: 0, alpha: COLOR_ONE });
}

#[test]
fn long_form_without_hash() {
    let c = parse_hex_color("00ff00").unwrap();
    assert_eq!(c, Color { red: 0, green: COLOR_ONE, blue: 0, alpha: COLOR_ONE });
}

#[test]
fn short_form_doubles_digits() {
    assert_eq!(parse_hex_color("f00"), parse_hex_color("ff0000"));
    assert_eq!(parse_hex_color("#abc"), parse_hex_color("#aabbcc"));
}

#[test]
fn alpha_forms() {
    // cc is 204, and 204 / 255 is exactly four fifths.
    let c = parse_hex_color("#000000cc").unwrap();
    assert_eq!(c.alpha, 800_000);
    let c = parse_hex_color("000f").unwrap();
    assert_eq!(c.alpha, COLOR_ONE);
    assert_eq!(c.red, 0);
}

#[test]
fn mixed_case_and_rounding() {
    // 80 hex is 128; 128 / 255 in millionths rounds down to 501960.
    let c = parse_hex_color("#80FF00").unwrap();
    assert_eq!(c, Color { red: 501_960, green: COLOR_ONE, blue: 0, alpha: COLOR_ONE });
}

#[test]
fn invalid_literals_yield_nothing() {
    assert_eq!(parse_hex_color(""), None);
    assert_eq!(parse_hex_color("#"), None);
    assert_eq!(parse_hex_color("12345"), None);
    assert_eq!(parse_hex_color("ggg"), None);
    assert_eq!(parse_hex_color("#ff00zz"), None);
    assert_eq!(parse_hex_color("ff00000000"), None);
}

#[test]
fn str_color_param_uses_hex() {
    assert_eq!(
        "#ff0000".to_color(),
        Some(Color { red: COLOR_ONE, green: 0, blue: 0, alpha: COLOR_ONE })
    );
}

#[test]
fn with_alpha_keeps_other_channels() {
    let c = Color { red: 1, green: 2, blue: 3, alpha: 4 };
    assert_eq!(c.with_alpha(9), Color { red: 1, green: 2, blue: 3, alpha: 9 });
}

#[test]
fn channels_layout() {
    let c = Color::rgba(10, 20, 30, 40);
    assert_eq!(c.channels(), vec![10, 20, 30, 40]);
}
