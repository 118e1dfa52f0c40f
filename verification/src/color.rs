//! Colours, and the colours that a text can stand for.

use std::str::FromStr;
use vstd::prelude::*;

verus! {

/// A colour of eight bits for each of red, green and blue.
#[derive(Clone, Copy, Debug, PartialEq, Eq, Structural)]
pub struct Color {
    pub red: u8,
    pub green: u8,
    pub blue: u8,
}

impl Color {
    /// Channel 0 is red, 1 is green, and the others are blue.
    pub open spec fn channel(self, channel: int) -> u8 {
        if channel == 0 {
            self.red
        } else if channel == 1 {
            self.green
        } else {
            self.blue
        }
    }

    /// The colour with these three channels.
    pub open spec fn of(channels: (u8, u8, u8)) -> Color {
        Color { red: channels.0, green: channels.1, blue: channels.2 }
    }

    pub fn new(red: u8, green: u8, blue: u8) -> (out: Self)
        ensures
            out == (Color { red, green, blue }),
    {
        Color { red, green, blue }
    }

    /// Red, green and blue, in this order.
    pub fn channels(&self) -> (out: [u8; 3])
        ensures
            forall|channel: int|
                0 <= channel < 3 ==> #[trigger] out[channel] == self.channel(channel),
    {
        [self.red, self.green, self.blue]
    }
}

impl Default for Color {
    /// Black.
    fn default() -> (out: Self)
        ensures
            out == (Color { red: 0, green: 0, blue: 0 }),
    {
        Color { red: 0, green: 0, blue: 0 }
    }
}

/// `palette::rgb::FromHexError`, the error of palette's reading of a colour
/// code: carried along, never looked into.
#[verifier::external_type_specification]
#[verifier::external_body]
pub struct ExFromHexError(palette::rgb::FromHexError);

/// The colour that palette's table of SVG and CSS3 colour names holds under `name`.
pub uninterp spec fn named_color_of(name: Seq<char>) -> Option<(u8, u8, u8)>;

/// The colour that palette reads from `text` as a hexadecimal colour code.
pub uninterp spec fn hex_color_of(text: Seq<char>) -> Option<(u8, u8, u8)>;

/// A word of small letters `a` to `z`, as the colour names are.
pub open spec fn is_color_word(name: Seq<char>) -> bool {
    name.len() > 0 && forall|i: int| 0 <= i < name.len() ==> 'a' <= #[trigger] name[i] <= 'z'
}

/// The value of a hexadecimal digit, in either case.
pub open spec fn hex_digit(c: char) -> Option<int> {
    if '0' <= c <= '9' {
        Some(c as int - '0' as int)
    } else if 'a' <= c <= 'f' {
        Some(c as int - 'a' as int + 10)
    } else if 'A' <= c <= 'F' {
        Some(c as int - 'A' as int + 10)
    } else {
        None
    }
}

/// The digits of a colour code: the text without one leading `#`.
pub open spec fn code_digits(text: Seq<char>) -> Seq<char> {
    if text.len() > 0 && text[0] == '#' {
        text.skip(1)
    } else {
        text
    }
}

/// `text` is a colour code such as `#ff0012` or `#abc`, with or without the `#`:
/// three or six hexadecimal digits.
pub open spec fn is_hex_code(text: Seq<char>) -> bool {
    let digits = code_digits(text);
    (digits.len() == 3 || digits.len() == 6) && forall|i: int|
        0 <= i < digits.len() ==> hex_digit(#[trigger] digits[i]) is Some
}

/// The colour that a colour code stands for. Of six digits each pair is one
/// channel; of three digits each is one channel, and stands for itself twice.
pub open spec fn hex_code_color(text: Seq<char>) -> (u8, u8, u8) {
    let digits = code_digits(text);
    if digits.len() == 3 {
        (
            (17 * hex_digit(digits[0]).unwrap()) as u8,
            (17 * hex_digit(digits[1]).unwrap()) as u8,
            (17 * hex_digit(digits[2]).unwrap()) as u8,
        )
    } else {
        (
            (16 * hex_digit(digits[0]).unwrap() + hex_digit(digits[1]).unwrap()) as u8,
            (16 * hex_digit(digits[2]).unwrap() + hex_digit(digits[3]).unwrap()) as u8,
            (16 * hex_digit(digits[4]).unwrap() + hex_digit(digits[5]).unwrap()) as u8,
        )
    }
}

/// A word of small letters is written in ASCII.
pub proof fn lemma_color_word_is_ascii(name: Seq<char>)
    requires
        is_color_word(name),
    ensures
        vstd::utf8::is_ascii_chars(name),
{
}

/// A colour code is written in ASCII.
pub proof fn lemma_hex_code_is_ascii(text: Seq<char>)
    requires
        is_hex_code(text),
    ensures
        vstd::utf8::is_ascii_chars(text),
{
    let digits = code_digits(text);
    assert forall|i: int| 0 <= i < text.len() implies '\0' <= #[trigger] text[i] <= '\u{7f}' by {
        if text[0] == '#' {
            if i > 0 {
                assert(hex_digit(digits[i - 1]) is Some);
            }
        } else {
            assert(hex_digit(digits[i]) is Some);
        }
    }
}

/// `palette::named::from_str`: looks `name` up in palette's table of colour
/// names. Trusted: the result depends on `name` alone, every name in the
/// table is a word of small letters, and none of them is made of the letters
/// `a` to `f` alone, so that no name is a colour code.
#[verifier::external_body]
pub(crate) fn named_color(name: &str) -> (out: Option<(u8, u8, u8)>)
    ensures
        out == named_color_of(name@),
        out is Some ==> is_color_word(name@),
        out is Some ==> !is_hex_code(name@),
{
    match palette::named::from_str(name) {
        Some(color) => Some((color.red, color.green, color.blue)),
        None => None,
    }
}

/// `FromStr::from_str` of `palette::Srgb<u8>`: reads `text` as a hexadecimal
/// colour code. Trusted: the result depends on `text` alone; a code of three
/// or six hexadecimal digits, with or without a leading `#`, gives the colour
/// that `hex_code_color` states; and text that, without one leading `#`, is
/// neither three nor six characters long is an error. ASCII is asked for
/// because palette cuts the text at byte offsets.
#[verifier::external_body]
pub(crate) fn hex_color(text: &str) -> (out: Result<(u8, u8, u8), palette::rgb::FromHexError>)
    requires
        text.is_ascii(),
    ensures
        out is Ok <==> hex_color_of(text@) is Some,
        out matches Ok(color) ==> hex_color_of(text@) == Some(color),
        is_hex_code(text@) ==> out is Ok && out->Ok_0 == hex_code_color(text@),
        code_digits(text@).len() != 3 && code_digits(text@).len() != 6 ==> out is Err,
{
    match palette::Srgb::<u8>::from_str(text) {
        Ok(color) => Ok((color.red, color.green, color.blue)),
        Err(error) => Err(error),
    }
}

} // verus!
