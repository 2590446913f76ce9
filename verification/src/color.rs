//! The colour primitive: an 8-bit RGBA value with its hex text form.

use vstd::prelude::*;
use vstd::string::*;
use crate::transfer::{decode, encode, lemma_encode_decode, spec_decode, spec_encode, FULL_LIGHT};

verus! {

/// An sRGB colour with straight alpha, eight bits per channel.
#[derive(Debug, Clone, Copy, PartialEq, Eq, Structural)]
pub struct Color {
    pub red: u8,
    pub green: u8,
    pub blue: u8,
    pub alpha: u8,
}

/// Why a text is not a hex colour.
#[derive(Debug, Clone, Copy, PartialEq, Eq, Structural)]
pub enum ParseError {
    /// The text is neither 7 nor 9 characters long.
    BadLength,
    /// The text does not start with `#`.
    MissingHash,
    /// A character after the `#` is not a hex digit.
    BadDigit,
}

impl ParseError {
    /// What is wrong with the text, in words.
    pub open spec fn spec_message(self) -> Seq<char> {
        match self {
            ParseError::BadLength => "a hex colour is 7 or 9 characters long"@,
            ParseError::MissingHash => "a hex colour starts with #"@,
            ParseError::BadDigit => "a hex colour has only hex digits after the #"@,
        }
    }

    /// What is wrong with the text, in words.
    pub fn message(&self) -> (text: &'static str)
        ensures
            text@ == self.spec_message(),
    {
        match self {
            ParseError::BadLength => "a hex colour is 7 or 9 characters long",
            ParseError::MissingHash => "a hex colour starts with #",
            ParseError::BadDigit => "a hex colour has only hex digits after the #",
        }
    }
}

/// The value of a hex digit, in either case; `None` for any other character.
pub open spec fn spec_digit_value(c: char) -> Option<u8> {
    if '0' <= c && c <= '9' {
        Some((c as u8 - '0' as u8) as u8)
    } else if 'a' <= c && c <= 'f' {
        Some((c as u8 - 'a' as u8 + 10) as u8)
    } else if 'A' <= c && c <= 'F' {
        Some((c as u8 - 'A' as u8 + 10) as u8)
    } else {
        None
    }
}

/// Whether `c` is one of `0-9`, `a-f`, `A-F`.
pub open spec fn spec_is_hex_digit(c: char) -> bool {
    spec_digit_value(c) is Some
}

/// The byte that the two hex digits `high` and `low` spell.
pub open spec fn spec_hex_pair(high: char, low: char) -> u8
    recommends
        spec_is_hex_digit(high),
        spec_is_hex_digit(low),
{
    (spec_digit_value(high).unwrap() * 16 + spec_digit_value(low).unwrap()) as u8
}

/// Whether every character of `s` from index 1 on is a hex digit.
pub open spec fn spec_all_hex_digits(s: Seq<char>) -> bool {
    forall|i: int| 1 <= i < s.len() ==> spec_is_hex_digit(#[trigger] s[i])
}

/// Whether `s` is `#` followed by exactly eight hex digits.
pub open spec fn spec_is_rgba_code(s: Seq<char>) -> bool {
    s.len() == 9 && s[0] == '#' && spec_all_hex_digits(s)
}

/// What a hex colour text means: `#RRGGBB` is opaque, `#RRGGBBAA` carries
/// its alpha, and every other text is an error.
pub open spec fn spec_from_hex(s: Seq<char>) -> Result<Color, ParseError> {
    if s.len() != 7 && s.len() != 9 {
        Err(ParseError::BadLength)
    } else if s[0] != '#' {
        Err(ParseError::MissingHash)
    } else if !spec_all_hex_digits(s) {
        Err(ParseError::BadDigit)
    } else {
        Ok(
            Color {
                red: spec_hex_pair(s[1], s[2]),
                green: spec_hex_pair(s[3], s[4]),
                blue: spec_hex_pair(s[5], s[6]),
                alpha: if s.len() == 9 {
                    spec_hex_pair(s[7], s[8])
                } else {
                    255
                },
            },
        )
    }
}

/// The lowercase hex digit for `n`, where `n < 16`.
pub open spec fn spec_hex_digit(n: u8) -> char
    recommends
        n < 16,
{
    if n < 10 {
        (n + '0' as u8) as char
    } else {
        (n - 10 + 'a' as u8) as char
    }
}

/// The two lowercase hex digits of `v`.
pub open spec fn spec_hex_byte(v: u8) -> Seq<char> {
    seq![spec_hex_digit(v / 16), spec_hex_digit(v % 16)]
}

/// The amount that stands for the whole: amounts are counted in
/// thousandths, from 0 (nothing) to `WHOLE` (all).
pub const WHOLE: u16 = 1000;

/// The alpha byte for an opacity of `permille` thousandths: `255 * permille
/// / 1000` rounded to the nearest integer, halves upwards.
pub open spec fn spec_opacity_alpha(permille: int) -> int {
    (255 * permille + 500) / 1000
}

/// The weight that a mix gives its second colour: `permille`, but at most
/// `WHOLE`.
pub open spec fn spec_weight(permille: u16) -> int {
    if permille > WHOLE {
        WHOLE as int
    } else {
        permille as int
    }
}

/// One colour channel of a mix. Both codes are decoded to linear light, the
/// light is interpolated with weight `t` thousandths on `b`, and the result
/// is encoded to the nearest code.
pub open spec fn spec_mix_light(a: u8, b: u8, t: int) -> u8 {
    spec_encode(spec_decode(a as int) * (1000 - t) + spec_decode(b as int) * t) as u8
}

/// The alpha channel of a mix: interpolated as it stands, and rounded to the
/// nearest integer, halves upwards.
pub open spec fn spec_mix_alpha(a: u8, b: u8, t: int) -> u8 {
    ((a * (1000 - t) + b * t + 500) / 1000) as u8
}

/// Whether `c` is one of `0-9`, `a-f`, `A-F`.
fn is_hex_digit(c: char) -> (r: bool)
    ensures
        r == spec_is_hex_digit(c),
{
    ('0' <= c && c <= '9') || ('a' <= c && c <= 'f') || ('A' <= c && c <= 'F')
}

/// `<palette::Srgba<u8> as FromStr>::from_str`. For a `#` followed by eight
/// hex digits, palette strips the `#` and reads each pair of digits with
/// `u8::from_str_radix(.., 16)`: the result holds the four bytes they spell,
/// in the order red, green, blue, alpha.
#[verifier::external_body]
fn parse_rgba(code: &str) -> (r: Option<(u8, u8, u8, u8)>)
    requires
        spec_is_rgba_code(code@),
    ensures
        r == Some(
            (
                spec_hex_pair(code@[1], code@[2]),
                spec_hex_pair(code@[3], code@[4]),
                spec_hex_pair(code@[5], code@[6]),
                spec_hex_pair(code@[7], code@[8]),
            ),
        ),
{
    match <palette::Srgba<u8> as std::str::FromStr>::from_str(code) {
        Ok(c) => Some((c.color.red, c.color.green, c.color.blue, c.alpha)),
        Err(_) => None,
    }
}

/// The lowercase hex digit for `n`, as a text of one character.
fn hex_digit_text(n: u8) -> (r: &'static str)
    requires
        n < 16,
    ensures
        r@ == seq![spec_hex_digit(n)],
{
    proof {
        reveal_strlit("0");
        reveal_strlit("1");
        reveal_strlit("2");
        reveal_strlit("3");
        reveal_strlit("4");
        reveal_strlit("5");
        reveal_strlit("6");
        reveal_strlit("7");
        reveal_strlit("8");
        reveal_strlit("9");
        reveal_strlit("a");
        reveal_strlit("b");
        reveal_strlit("c");
        reveal_strlit("d");
        reveal_strlit("e");
        reveal_strlit("f");
    }
    let r = if n == 0 {
        "0"
    } else if n == 1 {
        "1"
    } else if n == 2 {
        "2"
    } else if n == 3 {
        "3"
    } else if n == 4 {
        "4"
    } else if n == 5 {
        "5"
    } else if n == 6 {
        "6"
    } else if n == 7 {
        "7"
    } else if n == 8 {
        "8"
    } else if n == 9 {
        "9"
    } else if n == 10 {
        "a"
    } else if n == 11 {
        "b"
    } else if n == 12 {
        "c"
    } else if n == 13 {
        "d"
    } else if n == 14 {
        "e"
    } else {
        "f"
    };
    assert(r@ =~= seq![spec_hex_digit(n)]);
    r
}

/// `text` followed by the two hex digits of `v`.
fn append_hex_byte(text: String, v: u8) -> (r: String)
    ensures
        r@ == text@ + spec_hex_byte(v),
{
    let r = text.concat(hex_digit_text(v / 16)).concat(hex_digit_text(v % 16));
    assert(r@ =~= text@ + spec_hex_byte(v));
    r
}

/// One colour channel of a mix, with `t` thousandths of weight on `b`.
fn mix_light(a: u8, b: u8, t: u64) -> (r: u8)
    requires
        t <= 1000,
    ensures
        r == spec_mix_light(a, b, t as int),
{
    let from = decode(a);
    let to = decode(b);
    assert(from * (1000 - t) + to * t <= 1000 * FULL_LIGHT) by (nonlinear_arith)
        requires
            from <= FULL_LIGHT,
            to <= FULL_LIGHT,
            t <= 1000,
    ;
    encode(from * (1000 - t) + to * t)
}

/// The alpha channel of a mix, with `t` thousandths of weight on `b`.
fn mix_alpha(a: u8, b: u8, t: u64) -> (r: u8)
    requires
        t <= 1000,
    ensures
        r == spec_mix_alpha(a, b, t as int),
{
    let from: u64 = a as u64;
    let to: u64 = b as u64;
    assert(0 <= from * (1000 - t) + to * t <= 255 * 1000) by (nonlinear_arith)
        requires
            from <= 255,
            to <= 255,
            t <= 1000,
    ;
    ((from * (1000 - t) + to * t + 500) / 1000) as u8
}

impl Color {
    /// Opaque black.
    pub open spec fn spec_black() -> Color {
        Color { red: 0, green: 0, blue: 0, alpha: 255 }
    }

    /// This colour with its alpha set to `permille` thousandths of full
    /// opacity.
    pub open spec fn spec_with_opacity(self, permille: u16) -> Color {
        Color {
            red: self.red,
            green: self.green,
            blue: self.blue,
            alpha: spec_opacity_alpha(permille as int) as u8,
        }
    }

    /// The mix of this colour and `other`, with `permille` thousandths of
    /// weight on `other`: red, green and blue are mixed in linear light,
    /// alpha as it stands.
    pub open spec fn spec_mix(self, other: Color, permille: u16) -> Color {
        let t = spec_weight(permille);
        Color {
            red: spec_mix_light(self.red, other.red, t),
            green: spec_mix_light(self.green, other.green, t),
            blue: spec_mix_light(self.blue, other.blue, t),
            alpha: spec_mix_alpha(self.alpha, other.alpha, t),
        }
    }

    /// This colour mixed towards opaque black.
    pub open spec fn spec_darken(self, permille: u16) -> Color {
        self.spec_mix(Color::spec_black(), permille)
    }

    /// The text form of this colour as a spec value: `#rrggbb` when opaque,
    /// `#rrggbbaa` otherwise, in lowercase.
    pub open spec fn spec_to_hex(self) -> Seq<char> {
        let rgb = seq!['#'] + spec_hex_byte(self.red) + spec_hex_byte(self.green) + spec_hex_byte(
            self.blue,
        );
        if self.alpha == 255 {
            rgb
        } else {
            rgb + spec_hex_byte(self.alpha)
        }
    }

    /// The text form of this colour: `#rrggbb` when opaque, `#rrggbbaa`
    /// otherwise, in lowercase.
    pub fn to_hex(&self) -> (text: String)
        ensures
            text@ == self.spec_to_hex(),
    {
        let hash = String::from_str("#");
        proof {
            reveal_strlit("#");
            assert(hash@ =~= seq!['#']);
        }
        let rgb = append_hex_byte(
            append_hex_byte(append_hex_byte(hash, self.red), self.green),
            self.blue,
        );
        if self.alpha == 255 {
            rgb
        } else {
            append_hex_byte(rgb, self.alpha)
        }
    }

    /// A copy of this colour with its alpha set to `permille` thousandths of
    /// full opacity, rounded to the nearest byte. Red, green and blue stay.
    pub fn with_opacity(&self, permille: u16) -> (r: Color)
        requires
            permille <= WHOLE,
        ensures
            r == self.spec_with_opacity(permille),
            r.alpha == spec_opacity_alpha(permille as int),
            r.red == self.red && r.green == self.green && r.blue == self.blue,
    {
        let scaled: u32 = 255 * (permille as u32) + 500;
        Color {
            red: self.red,
            green: self.green,
            blue: self.blue,
            alpha: (scaled / 1000) as u8,
        }
    }

    /// The mix of this colour and `other` in linear light, with `permille`
    /// thousandths of weight on `other`; more than `WHOLE` counts as `WHOLE`.
    pub fn mix(&self, other: Color, permille: u16) -> (r: Color)
        ensures
            r == self.spec_mix(other, permille),
    {
        let t: u64 = if permille > WHOLE {
            1000
        } else {
            permille as u64
        };
        Color {
            red: mix_light(self.red, other.red, t),
            green: mix_light(self.green, other.green, t),
            blue: mix_light(self.blue, other.blue, t),
            alpha: mix_alpha(self.alpha, other.alpha, t),
        }
    }

    /// This colour mixed towards opaque black by `permille` thousandths.
    pub fn darken(&self, permille: u16) -> (r: Color)
        ensures
            r == self.spec_darken(permille),
    {
        self.mix(Color { red: 0, green: 0, blue: 0, alpha: 255 }, permille)
    }

    /// Parses `#RRGGBB` or `#RRGGBBAA`; a six-digit colour is opaque.
    pub fn from_hex(hex: &str) -> (r: Result<Color, ParseError>)
        ensures
            r == spec_from_hex(hex@),
    {
        let n = hex.unicode_len();
        if n != 7 && n != 9 {
            return Err(ParseError::BadLength);
        }
        if hex.get_char(0) != '#' {
            return Err(ParseError::MissingHash);
        }
        let mut i: usize = 1;
        while i < n
            invariant
                1 <= i <= n,
                n == hex@.len(),
                n == 7 || n == 9,
                hex@[0] == '#',
                forall|j: int| 1 <= j < i ==> spec_is_hex_digit(#[trigger] hex@[j]),
            decreases n - i,
        {
            if !is_hex_digit(hex.get_char(i)) {
                assert(!spec_is_hex_digit(hex@[i as int]));
                return Err(ParseError::BadDigit);
            }
            i += 1;
        }
        let parsed = if n == 7 {
            let full = String::from_str(hex).concat("ff");
            proof {
                reveal_strlit("ff");
                assert forall|j: int| 1 <= j < full@.len() implies spec_is_hex_digit(
                    #[trigger] full@[j],
                ) by {
                    if j < 7 {
                        assert(full@[j] == hex@[j]);
                    }
                }
                assert(spec_hex_pair(full@[7], full@[8]) == 255);
            }
            parse_rgba(full.as_str())
        } else {
            parse_rgba(hex)
        };
        match parsed {
            Some((red, green, blue, alpha)) => Ok(Color { red, green, blue, alpha }),
            None => Err(ParseError::BadDigit),
        }
    }
}

/// The two digits that `spec_hex_byte` writes are lowercase hex digits that
/// spell the byte.
pub proof fn lemma_hex_byte(v: u8)
    ensures
        spec_hex_byte(v).len() == 2,
        spec_is_hex_digit(spec_hex_byte(v)[0]),
        spec_is_hex_digit(spec_hex_byte(v)[1]),
        spec_hex_pair(spec_hex_byte(v)[0], spec_hex_byte(v)[1]) == v,
{
}

/// Printing a colour and parsing the text gives the colour back. An opaque
/// colour prints as `#` and six hex digits, any other as `#` and eight.
pub proof fn lemma_hex_round_trip(c: Color)
    ensures
        spec_from_hex(c.spec_to_hex()) == Ok::<Color, ParseError>(c),
        c.spec_to_hex()[0] == '#',
        spec_all_hex_digits(c.spec_to_hex()),
        c.alpha == 255 ==> c.spec_to_hex().len() == 7,
        c.alpha != 255 ==> c.spec_to_hex().len() == 9,
{
    lemma_hex_byte(c.red);
    lemma_hex_byte(c.green);
    lemma_hex_byte(c.blue);
    lemma_hex_byte(c.alpha);
    let s = c.spec_to_hex();
    assert(s[1] == spec_hex_byte(c.red)[0] && s[2] == spec_hex_byte(c.red)[1]);
    assert(s[3] == spec_hex_byte(c.green)[0] && s[4] == spec_hex_byte(c.green)[1]);
    assert(s[5] == spec_hex_byte(c.blue)[0] && s[6] == spec_hex_byte(c.blue)[1]);
    if c.alpha != 255 {
        assert(s[7] == spec_hex_byte(c.alpha)[0] && s[8] == spec_hex_byte(c.alpha)[1]);
    }
}

/// Setting the opacity changes the alpha channel and nothing else; an
/// opacity of nothing is transparent, and the whole is opaque.
pub proof fn lemma_with_opacity(c: Color, permille: u16)
    requires
        permille <= WHOLE,
    ensures
        c.spec_with_opacity(permille).red == c.red,
        c.spec_with_opacity(permille).green == c.green,
        c.spec_with_opacity(permille).blue == c.blue,
        c.spec_with_opacity(permille).alpha == spec_opacity_alpha(permille as int),
        c.spec_with_opacity(0).alpha == 0,
        c.spec_with_opacity(WHOLE).alpha == 255,
{
}

/// Mixing a colour with itself gives the colour, whatever the weight.
pub proof fn lemma_mix_same(c: Color, permille: u16)
    ensures
        c.spec_mix(c, permille) == c,
{
    let t = spec_weight(permille);
    lemma_mix_light_same(c.red, t);
    lemma_mix_light_same(c.green, t);
    lemma_mix_light_same(c.blue, t);
    assert(c.alpha * (1000 - t) + c.alpha * t == 1000 * c.alpha) by (nonlinear_arith);
}

/// With no weight on the second colour a mix is the first colour, and with
/// the whole weight on it the second.
pub proof fn lemma_mix_ends(a: Color, b: Color)
    ensures
        a.spec_mix(b, 0) == a,
        a.spec_mix(b, WHOLE) == b,
{
    assert(spec_weight(0) == 0 && spec_weight(WHOLE) == 1000);
    lemma_mix_light_ends(a.red, b.red);
    lemma_mix_light_ends(a.green, b.green);
    lemma_mix_light_ends(a.blue, b.blue);
    assert(a.alpha * (1000 - 0) + b.alpha * 0 == 1000 * a.alpha);
    assert(a.alpha * (1000 - 1000) + b.alpha * 1000 == 1000 * b.alpha);
}

/// Mixing a code with itself gives the code.
proof fn lemma_mix_light_same(c: u8, t: int)
    ensures
        spec_mix_light(c, c, t) == c,
{
    lemma_encode_decode(c);
    let light = spec_decode(c as int);
    assert(light * (1000 - t) + light * t == 1000 * light) by (nonlinear_arith);
}

/// At weight nothing a mixed channel is the first code, at the whole weight
/// the second.
proof fn lemma_mix_light_ends(a: u8, b: u8)
    ensures
        spec_mix_light(a, b, 0) == a,
        spec_mix_light(a, b, 1000) == b,
{
    lemma_encode_decode(a);
    lemma_encode_decode(b);
    let from = spec_decode(a as int);
    let to = spec_decode(b as int);
    assert(from * (1000 - 0) + to * 0 == 1000 * from);
    assert(from * (1000 - 1000) + to * 1000 == 1000 * to);
}

} // verus!
