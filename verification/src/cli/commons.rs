//! What the commands of every keyboard share.

use vstd::prelude::*;
use crate::cli::errors::InvalidColor;
use crate::color::{
    code_digits, hex_code_color, hex_color, hex_color_of, is_color_word, is_hex_code,
    lemma_color_word_is_ascii, lemma_hex_code_is_ascii, named_color, named_color_of, Color,
};

verus! {

/// The colour to use where a name stands for `named` and a colour code for
/// `hex`: the name goes first.
pub open spec fn chosen_color(named: Option<(u8, u8, u8)>, hex: Option<(u8, u8, u8)>) -> Result<
    Color,
    InvalidColor,
> {
    match named {
        Some(channels) => Ok(Color::of(channels)),
        None => match hex {
            Some(channels) => Ok(Color::of(channels)),
            None => Err(InvalidColor),
        },
    }
}

/// Chooses between the colour found under a name and the colour read from a
/// colour code.
pub fn choose_color(named: Option<(u8, u8, u8)>, hex: Option<(u8, u8, u8)>) -> (out: Result<
    Color,
    InvalidColor,
>)
    ensures
        out == chosen_color(named, hex),
{
    match named {
        Some((red, green, blue)) => Ok(Color::new(red, green, blue)),
        None => match hex {
            Some((red, green, blue)) => Ok(Color::new(red, green, blue)),
            None => Err(InvalidColor),
        },
    }
}

/// The colour that `arg` stands for: a named colour such as `red`, or else a
/// colour code such as `#ff0012`.
///
/// - A code of three or six hexadecimal digits, with or without a leading
///   `#`, is the colour that its digits state.
/// - Text outside ASCII is no colour.
/// - Text that is no word of small letters and, without one leading `#`,
///   neither three nor six characters long is no colour.
pub fn get_color(arg: &str) -> (out: Result<Color, InvalidColor>)
    ensures
        out == chosen_color(
            named_color_of(arg@),
            if arg.is_ascii() {
                hex_color_of(arg@)
            } else {
                None
            },
        ),
        is_hex_code(arg@) ==> out == Ok::<Color, InvalidColor>(Color::of(hex_code_color(arg@))),
        !arg.is_ascii() ==> out == Err::<Color, InvalidColor>(InvalidColor),
        !is_color_word(arg@) && code_digits(arg@).len() != 3 && code_digits(arg@).len() != 6
            ==> out == Err::<Color, InvalidColor>(InvalidColor),
{
    proof {
        if is_hex_code(arg@) {
            lemma_hex_code_is_ascii(arg@);
        }
        if is_color_word(arg@) {
            lemma_color_word_is_ascii(arg@);
        }
    }
    let named = named_color(arg);
    let hex = if named.is_none() && arg.is_ascii() {
        match hex_color(arg) {
            Ok(channels) => Some(channels),
            Err(_) => None,
        }
    } else {
        None
    };
    choose_color(named, hex)
}

} // verus!
