use theme_builder::color::{Color, ParseError, WHOLE};
use theme_builder::transfer::{decode, encode, FULL_LIGHT};

use palette::{LinSrgb, Mix, Srgb, Srgba};
use std::str::FromStr;

fn palette_mix(a: Color, b: Color, weight: f64) -> (u8, u8, u8) {
    let from: LinSrgb<f64> = Srgb::new(a.red, a.green, a.blue).into_linear();
    let to: LinSrgb<f64> = Srgb::new(b.red, b.green, b.blue).into_linear();
    let back: Srgb<u8> = Srgb::from_linear(from.mix(to, weight));
    (back.red, back.green, back.blue)
}

fn hex(text: &str) -> Color {
    Color::from_hex(text).unwrap()
}

fn srgb_to_linear(code: u8) -> f64 {
    let u = f64::from(code) / 255.0;
    if u <= 0.04045 {
        u / 12.92
    } else {
        ((u + 0.055) / 1.055).powf(2.4)
    }
}

fn linear_to_srgb(light: f64) -> u8 {
    let e = if light <= 0.0031308 {
        12.92 * light
    } else {
        1.055 * light.powf(1.0 / 2.4) - 0.055
    };
    (e * 255.0 + 0.5).floor() as u8
}

#[test]
fn parses_six_digits_as_opaque() {
    let c = hex("#84c4df");
    assert_eq!(c, Color { red: 0x84, green: 0xc4, blue: 0xdf, alpha: 255 });
}

#[test]
fn parses_eight_digits_with_alpha() {
    let c = hex("#84c4df33");
    assert_eq!(c, Color { red: 0x84, green: 0xc4, blue: 0xdf, alpha: 0x33 });
}

#[test]
fn parses_upper_and_mixed_case() {
    assert_eq!(hex("#BDB969"), Color { red: 0xbd, green: 0xb9, blue: 0x69, alpha: 255 });
    assert_eq!(hex("#FfA07a0F"), Color { red: 0xff, green: 0xa0, blue: 0x7a, alpha: 0x0f });
}

#[test]
fn parsed_channels_differ_from_the_text() {
    let c = hex("#01020304");
    assert_eq!((c.red, c.green, c.blue, c.alpha), (1, 2, 3, 4));
    let d = hex("#102030");
    assert_eq!((d.red, d.green, d.blue, d.alpha), (16, 32, 48, 255));
}

#[test]
fn rejects_wrong_length() {
    assert_eq!(Color::from_hex(""), Err(ParseError::BadLength));
    assert_eq!(Color::from_hex("#"), Err(ParseError::BadLength));
    assert_eq!(Color::from_hex("#fff"), Err(ParseError::BadLength));
    assert_eq!(Color::from_hex("#abcd"), Err(ParseError::BadLength));
    assert_eq!(Color::from_hex("84c4df"), Err(ParseError::BadLength));
    assert_eq!(Color::from_hex("84c4dfff"), Err(ParseError::BadLength));
    assert_eq!(Color::from_hex("#ff00000f"), Ok(Color { red: 255, green: 0, blue: 0, alpha: 15 }));
    assert_eq!(Color::from_hex("#ff000000f"), Err(ParseError::BadLength));
}

#[test]
fn rejects_seven_digits() {
    assert_eq!(Color::from_hex("#ff00000"), Err(ParseError::BadLength));
}

#[test]
fn rejects_missing_hash() {
    assert_eq!(Color::from_hex("084c4df"), Err(ParseError::MissingHash));
    assert_eq!(Color::from_hex("084c4dfff"), Err(ParseError::MissingHash));
    assert_eq!(Color::from_hex(" 84c4df"), Err(ParseError::MissingHash));
}

#[test]
fn rejects_bad_digits() {
    assert_eq!(Color::from_hex("#84c4dg"), Err(ParseError::BadDigit));
    assert_eq!(Color::from_hex("#+f+f+f"), Err(ParseError::BadDigit));
    assert_eq!(Color::from_hex("#84 4df"), Err(ParseError::BadDigit));
    assert_eq!(Color::from_hex("#84c4df-1"), Err(ParseError::BadDigit));
}

#[test]
fn rejects_text_that_is_not_ascii() {
    assert_eq!(Color::from_hex("#84c4d\u{e9}"), Err(ParseError::BadDigit));
    assert_eq!(Color::from_hex("\u{e9}84c4df"), Err(ParseError::MissingHash));
    assert_eq!(Color::from_hex("#\u{1f600}\u{1f600}"), Err(ParseError::BadLength));
}

#[test]
fn hex_round_trip_of_an_opaque_color() {
    assert_eq!(hex("#84c4df").to_hex(), "#84c4df");
}

#[test]
fn prints_lowercase() {
    assert_eq!(hex("#BDB969").to_hex(), "#bdb969");
    assert_eq!(hex("#ABCDEF12").to_hex(), "#abcdef12");
}

#[test]
fn opaque_colors_print_six_digits() {
    let c = Color { red: 0, green: 10, blue: 255, alpha: 255 };
    assert_eq!(c.to_hex(), "#000aff");
    assert_eq!(Color::from_hex(&c.to_hex()), Ok(c));
}

#[test]
fn other_colors_print_eight_digits() {
    let c = Color { red: 0, green: 10, blue: 255, alpha: 254 };
    assert_eq!(c.to_hex(), "#000afffe");
    assert_eq!(Color::from_hex(&c.to_hex()), Ok(c));
    let clear = Color { red: 1, green: 2, blue: 3, alpha: 0 };
    assert_eq!(clear.to_hex(), "#01020300");
}

#[test]
fn every_alpha_round_trips() {
    for alpha in 0..=255u8 {
        let c = Color { red: alpha, green: 255 - alpha, blue: alpha / 2, alpha };
        let text = c.to_hex();
        assert_eq!(text.len(), if alpha == 255 { 7 } else { 9 });
        assert_eq!(Color::from_hex(&text), Ok(c));
    }
}

#[test]
fn a_fifth_of_opacity_on_black() {
    assert_eq!(hex("#000000").with_opacity(200).to_hex(), "#00000033");
}

#[test]
fn opacity_is_rounded_to_the_nearest_byte() {
    let black = hex("#000000");
    assert_eq!(black.with_opacity(0).alpha, 0);
    assert_eq!(black.with_opacity(1).alpha, 0);
    assert_eq!(black.with_opacity(2).alpha, 1);
    assert_eq!(black.with_opacity(100).alpha, 26);
    assert_eq!(black.with_opacity(150).alpha, 38);
    assert_eq!(black.with_opacity(300).alpha, 77);
    assert_eq!(black.with_opacity(400).alpha, 102);
    assert_eq!(black.with_opacity(500).alpha, 128);
    assert_eq!(black.with_opacity(600).alpha, 153);
    assert_eq!(black.with_opacity(800).alpha, 204);
    assert_eq!(black.with_opacity(999).alpha, 255);
    assert_eq!(black.with_opacity(WHOLE).alpha, 255);
}

#[test]
fn opacity_keeps_red_green_and_blue() {
    let c = hex("#84c4df10").with_opacity(500);
    assert_eq!(c, Color { red: 0x84, green: 0xc4, blue: 0xdf, alpha: 128 });
}

#[test]
fn white_and_black_mix_to_the_linear_mid_gray() {
    let mid = hex("#ffffff").mix(hex("#000000"), 500);
    assert_eq!(mid.to_hex(), "#bcbcbc");
    assert_ne!(mid.to_hex(), "#808080");
}

#[test]
fn mix_with_itself_is_the_color() {
    for code in 0..=255u8 {
        let c = Color { red: code, green: 255 - code, blue: code / 3, alpha: code };
        for t in [0u16, 1, 25, 333, 500, 999, 1000] {
            assert_eq!(c.mix(c, t), c);
        }
    }
}

#[test]
fn mix_ends_are_the_two_colors() {
    let a = hex("#24272d80");
    let b = hex("#91a2a6");
    assert_eq!(a.mix(b, 0), a);
    assert_eq!(a.mix(b, WHOLE), b);
}

#[test]
fn a_weight_above_the_whole_counts_as_the_whole() {
    let a = hex("#24272d");
    let b = hex("#91a2a6");
    assert_eq!(a.mix(b, 1001), b);
    assert_eq!(a.mix(b, u16::MAX), b);
}

#[test]
fn alpha_is_mixed_as_it_stands() {
    assert_eq!(hex("#ff000080").mix(hex("#0000ff"), 500).to_hex(), "#bc00bcc0");
    assert_eq!(hex("#10203040").mix(hex("#a0b0c0d0"), 333).to_hex(), "#616d7a70");
}

#[test]
fn mixes_of_the_dark_theme() {
    assert_eq!(hex("#24272d").mix(hex("#91a2a6"), 25).to_hex(), "#2b2f35");
    assert_eq!(hex("#84c4df").mix(hex("#24272d"), 900).to_hex(), "#384d58");
    assert_eq!(hex("#384d58").mix(hex("#84c4df"), 500).to_hex(), "#6798ad");
    assert_eq!(hex("#91a2a6").mix(hex("#24272d"), 400).to_hex(), "#758286");
    assert_eq!(hex("#474c54").mix(hex("#91a2a6"), 500).to_hex(), "#748085");
}

#[test]
fn mix_agrees_with_the_transfer_function_in_floating_point() {
    for a in (0..=255u8).step_by(5) {
        for b in (0..=255u8).step_by(3) {
            if a <= 10 && b <= 10 {
                continue;
            }
            for t in [25u16, 50, 100, 400, 500, 900, 333, 7] {
                let w = f64::from(t) / 1000.0;
                let light = srgb_to_linear(a) + (srgb_to_linear(b) - srgb_to_linear(a)) * w;
                let from = Color { red: a, green: a, blue: a, alpha: 255 };
                let to = Color { red: b, green: b, blue: b, alpha: 255 };
                assert_eq!(from.mix(to, t).red, linear_to_srgb(light), "{a} {b} {t}");
            }
        }
    }
}

#[test]
fn ties_on_the_linear_toe_go_up() {
    let from = Color { red: 0, green: 0, blue: 0, alpha: 255 };
    let to = Color { red: 5, green: 10, blue: 1, alpha: 255 };
    let mixed = from.mix(to, 300);
    assert_eq!((mixed.red, mixed.green, mixed.blue), (2, 3, 0));
    let half = from.mix(to, 500);
    assert_eq!((half.red, half.green, half.blue), (3, 5, 1));
}

#[test]
fn darken_mixes_towards_black() {
    let c = hex("#24272d");
    assert_eq!(c.darken(100).to_hex(), "#22252a");
    assert_eq!(c.darken(100), c.mix(hex("#000000"), 100));
    assert_eq!(c.darken(0), c);
    assert_eq!(c.darken(WHOLE), hex("#000000"));
    assert_eq!(hex("#24272d80").darken(WHOLE), hex("#000000"));
}

#[test]
fn decode_spans_the_range_of_light() {
    assert_eq!(decode(0), 0);
    assert_eq!(decode(1), 1_000_000_000);
    assert_eq!(decode(10), 10_000_000_000);
    assert_eq!(decode(11), 11_025_496_728);
    assert_eq!(decode(128), 711_174_003_675);
    assert_eq!(decode(255), FULL_LIGHT);
}

#[test]
fn decode_follows_the_transfer_function() {
    for code in 0..=255u8 {
        let want = srgb_to_linear(code) * FULL_LIGHT as f64;
        let got = decode(code) as f64;
        assert!((want - got).abs() <= 1.0, "{code}");
    }
}

#[test]
fn encode_inverts_decode() {
    for code in 0..=255u8 {
        assert_eq!(encode(1000 * decode(code)), code);
    }
}

#[test]
fn encode_goes_to_the_nearest_code() {
    assert_eq!(encode(0), 0);
    assert_eq!(encode(1000 * 500_000_000 - 1), 0);
    assert_eq!(encode(1000 * 500_000_000), 1);
    assert_eq!(encode(1000 * 705_179_941_433 - 1), 127);
    assert_eq!(encode(1000 * 705_179_941_433), 128);
    assert_eq!(encode(1000 * FULL_LIGHT), 255);
    assert_eq!(encode(u64::MAX), 255);
}

#[test]
fn parsing_agrees_with_palette() {
    for text in ["#84c4df33", "#BDB969ff", "#00000000", "#FfA07a0F", "#91a2a680"] {
        let ours = hex(text);
        let theirs = Srgba::<u8>::from_str(text).unwrap();
        assert_eq!(
            (ours.red, ours.green, ours.blue, ours.alpha),
            (theirs.color.red, theirs.color.green, theirs.color.blue, theirs.alpha)
        );
    }
    for text in ["#84c4df", "#BDB969", "#000000"] {
        let ours = hex(text);
        let theirs = Srgb::<u8>::from_str(text).unwrap();
        assert_eq!((ours.red, ours.green, ours.blue), (theirs.red, theirs.green, theirs.blue));
        assert_eq!(ours.alpha, 255);
    }
}

#[test]
fn mix_agrees_with_palette_in_linear_light() {
    for (a, b, t) in [
        ("#ffffff", "#000000", 500u16),
        ("#24272d", "#91a2a6", 25),
        ("#84c4df", "#24272d", 900),
        ("#384d58", "#84c4df", 500),
        ("#91a2a6", "#24272d", 400),
        ("#474c54", "#91a2a6", 500),
        ("#24272d", "#000000", 100),
        ("#88c0d0", "#ffffff", 900),
    ] {
        let mixed = hex(a).mix(hex(b), t);
        let want = palette_mix(hex(a), hex(b), f64::from(t) / 1000.0);
        assert_eq!((mixed.red, mixed.green, mixed.blue), want, "{a} {b} {t}");
    }
}

#[test]
fn mix_rounds_to_the_nearest_code() {
    // For green the transfer function gives 252.517 here, which is nearer to 253 than to 252.
    let mixed = hex("#ffffff").mix(hex("#5c6165"), 25);
    assert_eq!((mixed.red, mixed.green, mixed.blue), (252, 253, 253));
    let light = srgb_to_linear(255) + (srgb_to_linear(0x61) - srgb_to_linear(255)) * 0.025;
    assert_eq!(linear_to_srgb(light), 253);
}

#[test]
fn each_error_says_what_is_wrong() {
    assert_eq!(ParseError::BadLength.message(), "a hex colour is 7 or 9 characters long");
    assert_eq!(ParseError::MissingHash.message(), "a hex colour starts with #");
    assert_eq!(ParseError::BadDigit.message(), "a hex colour has only hex digits after the #");
}
