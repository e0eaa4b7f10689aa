use crate::color::Rgb;
use palette::rgb::FromHexError;
use std::str::FromStr;
use vstd::prelude::*;

verus! {

#[verifier::external_type_specification]
#[verifier::external_body]
pub struct ExFromHexError(FromHexError);

/// The value of one hexadecimal digit, either case.
pub open spec fn hex_digit(c: char) -> Option<int> {
    if '0' <= c && c <= '9' {
        Some(c as int - '0' as int)
    } else if 'a' <= c && c <= 'f' {
        Some(c as int - 'a' as int + 10)
    } else if 'A' <= c && c <= 'F' {
        Some(c as int - 'A' as int + 10)
    } else {
        None
    }
}

/// A channel written as one digit `d`, which stands for `dd`.
pub open spec fn short_channel(c: char) -> Option<int> {
    match hex_digit(c) {
        Some(d) => Some(d * 17),
        None => None,
    }
}

/// A channel written as two characters: two digits, or a plus sign
/// followed by one digit.
pub open spec fn long_channel(c0: char, c1: char) -> Option<int> {
    if c0 == '+' {
        hex_digit(c1)
    } else {
        match (hex_digit(c0), hex_digit(c1)) {
            (Some(h), Some(l)) => Some(h * 16 + l),
            _ => None,
        }
    }
}

pub open spec fn channels(r: Option<int>, g: Option<int>, b: Option<int>) -> Option<Rgb> {
    match (r, g, b) {
        (Some(r), Some(g), Some(b)) => Some(Rgb { red: r as u8, green: g as u8, blue: b as u8 }),
        _ => None,
    }
}

/// The text of a hex code without its optional leading `#`.
pub open spec fn hex_body(s: Seq<char>) -> Seq<char> {
    if s.len() > 0 && s[0] == '#' {
        s.drop_first()
    } else {
        s
    }
}

/// The color that a hex code `#rgb`, `rgb`, `#rrggbb` or `rrggbb` names,
/// if it is one.
pub open spec fn hex_color(s: Seq<char>) -> Option<Rgb> {
    let h = hex_body(s);
    if h.len() == 3 {
        channels(short_channel(h[0]), short_channel(h[1]), short_channel(h[2]))
    } else if h.len() == 6 {
        channels(long_channel(h[0], h[1]), long_channel(h[2], h[3]), long_channel(h[4], h[5]))
    } else {
        None
    }
}

/// Relies on palette's `FromStr for Rgb<S, u8>`: it strips one leading `#`,
/// then reads three one-digit or three two-digit channels with
/// `u8::from_str_radix(_, 16)`, and fails on any other length. ASCII text
/// keeps its byte slices on character boundaries, so the call cannot panic.
#[verifier::external_body]
fn decode_hex(hex: &str) -> (r: Result<Rgb, FromHexError>)
    requires
        hex.is_ascii(),
    ensures
        match r {
            Ok(c) => hex_color(hex@) == Some(c),
            Err(_) => hex_color(hex@) is None,
        },
{
    palette::Srgb::<u8>::from_str(hex).map(|c| Rgb { red: c.red, green: c.green, blue: c.blue })
}

/// Decodes one palette color from its hex code.
pub fn parse_color(hex: &str) -> (r: Result<Rgb, FromHexError>)
    requires
        hex.is_ascii(),
    ensures
        match r {
            Ok(c) => hex_color(hex@) == Some(c),
            Err(_) => hex_color(hex@) is None,
        },
{
    decode_hex(hex)
}

} // verus!
