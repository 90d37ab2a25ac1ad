use color_parser::{
    parse_hex_to_rgba, parse_rgb_to_cmyk, parse_rgb_to_hsl, ColorParserError, Ratio, Rgba,
};

/// The percentage (or degree) value a channel fraction denotes.
fn pct(x: &Ratio) -> f64 {
    x.num as f64 / x.den as f64
}

#[test]
fn test_six_digit_alpha_defaults_to_opaque() {
    let color = parse_hex_to_rgba("#00FF00").unwrap();
    assert_eq!(color.alpha, 255);
    let color = parse_hex_to_rgba("#8B0000").unwrap();
    assert_eq!(color.alpha, 255);
}

#[test]
fn test_shorthand_equals_duplicated_digits() {
    let short = parse_hex_to_rgba("ABC").unwrap();
    let long = parse_hex_to_rgba("AABBCC").unwrap();
    assert_eq!(short, long);
}

#[test]
fn test_case_insensitive() {
    let upper = parse_hex_to_rgba("#FA3").unwrap();
    let lower = parse_hex_to_rgba("#fa3").unwrap();
    assert_eq!(upper, lower);
}

#[test]
fn test_mixed_case() {
    let color = parse_hex_to_rgba("FfAa33").unwrap();
    assert_eq!(
        color,
        Rgba {
            red: 255,
            green: 170,
            blue: 51,
            alpha: 255
        }
    );
}

#[test]
fn test_empty_string_is_invalid_length() {
    assert!(matches!(
        parse_hex_to_rgba(""),
        Err(ColorParserError::InvalidLength)
    ));
    assert!(matches!(
        parse_hex_to_rgba("#"),
        Err(ColorParserError::InvalidLength)
    ));
}

#[test]
fn test_four_digit_shorthand_with_alpha() {
    let color = parse_hex_to_rgba("#FA3C").unwrap();
    assert_eq!(
        color,
        Rgba {
            red: 255,
            green: 170,
            blue: 51,
            alpha: 204
        }
    );
}

#[test]
fn test_eight_digit_lowercase_without_hash() {
    let color = parse_hex_to_rgba("ffaa33cc").unwrap();
    assert_eq!(
        color,
        Rgba {
            red: 255,
            green: 170,
            blue: 51,
            alpha: 204
        }
    );
}

#[test]
fn test_invalid_character_in_alpha_pair() {
    assert!(matches!(
        parse_hex_to_rgba("FFAA33GG"),
        Err(ColorParserError::InvalidCharacter)
    ));
}

#[test]
fn test_sign_characters_are_rejected() {
    assert!(matches!(
        parse_hex_to_rgba("+1+2+3"),
        Err(ColorParserError::InvalidCharacter)
    ));
}

#[test]
fn test_second_hash_is_not_stripped() {
    // Only one leading `#` is stripped; a second one is a parse character.
    assert!(matches!(
        parse_hex_to_rgba("##FFAA33"),
        Err(ColorParserError::InvalidLength)
    ));
    assert!(matches!(
        parse_hex_to_rgba("##FFAA3"),
        Err(ColorParserError::InvalidCharacter)
    ));
}

#[test]
fn test_error_messages() {
    assert_eq!(
        ColorParserError::InvalidLength.message(),
        "Hex color must be 6 character long"
    );
    assert_eq!(
        ColorParserError::InvalidCharacter.message(),
        "Invalid character in hex color"
    );
    assert_eq!(
        ColorParserError::InvalidRgbValue.message(),
        "RGB value must be between 0 and 255"
    );
}

#[test]
fn test_hsl_exact_fractions_light_blue() {
    let color = Rgba {
        red: 173,
        green: 216,
        blue: 230,
        alpha: 255,
    };
    let hsl = parse_rgb_to_hsl(&color).unwrap();

    // Blue dominant: hue = (240 * 57 + 60 * (173 - 216)) / 57 degrees.
    assert_eq!(hsl.hue.num, 11100);
    assert_eq!(hsl.hue.den, 57);
    // Saturation = 57 / (255 - |403 - 255|) = 57 / 107, as a percentage.
    assert_eq!(hsl.saturation.num, 5700);
    assert_eq!(hsl.saturation.den, 107);
    // Lightness = 50 * 403 / 255 percent.
    assert_eq!(hsl.lightness.num, 20150);
    assert_eq!(hsl.lightness.den, 255);
}

#[test]
fn test_hue_stays_below_full_circle() {
    // Red dominant with green < blue: the wrap-around branch.
    let color = Rgba {
        red: 255,
        green: 0,
        blue: 1,
        alpha: 255,
    };
    let hsl = parse_rgb_to_hsl(&color).unwrap();
    assert_eq!(hsl.hue.num, 360 * 255 - 60);
    assert_eq!(hsl.hue.den, 255);
    let hue = pct(&hsl.hue);
    assert!(0.0 <= hue && hue < 360.0);
}

#[test]
fn test_cmyk_exact_percentages() {
    let color = Rgba {
        red: 102,
        green: 0,
        blue: 51,
        alpha: 255,
    };
    let cmyk = parse_rgb_to_cmyk(&color).unwrap();
    assert_eq!(pct(&cmyk.cyan), 0.0);
    assert_eq!(pct(&cmyk.magenta), 100.0);
    assert_eq!(pct(&cmyk.yellow), 50.0);
    assert_eq!(pct(&cmyk.black), 60.0);
}

#[test]
fn test_alpha_is_never_consulted() {
    let opaque = Rgba {
        red: 10,
        green: 200,
        blue: 30,
        alpha: 255,
    };
    let clear = Rgba {
        red: 10,
        green: 200,
        blue: 30,
        alpha: 0,
    };
    assert_eq!(
        parse_rgb_to_hsl(&opaque).unwrap(),
        parse_rgb_to_hsl(&clear).unwrap()
    );
    assert_eq!(
        parse_rgb_to_cmyk(&opaque).unwrap(),
        parse_rgb_to_cmyk(&clear).unwrap()
    );
}
