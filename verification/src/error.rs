//! What can go wrong while artwork is turned into tables.

use vstd::prelude::*;
use vstd::string::*;
use crate::emit::{decimal, push_char, push_decimal};

verus! {

/// A run stops at the first error; none of them can be recovered from.
#[derive(Clone, Debug, PartialEq, Eq)]
pub enum Error {
    /// More than one output layout was asked for.
    ExclusiveModes,
    /// A scan line of a sprite holds two different palette colours, and the
    /// hardware shows one colour per line.
    SecondColor { line: usize, sprite: String },
    /// A line of text holds a character that the font has no glyph for.
    UnknownCharacter { character: char, text: String },
}

impl Error {
    /// The text shown to the user for this error.
    pub open spec fn message_text(self) -> Seq<char> {
        match self {
            Error::ExclusiveModes => "multisprite, raw and reversed flags are exclusive"@,
            Error::SecondColor { line, sprite } => "Second color found on line "@ + decimal(
                line as nat,
            ) + " of sprite "@ + sprite@,
            Error::UnknownCharacter { character, text } => "Unknown character "@.push(character)
                + " on line "@ + text@,
        }
    }

    /// Renders the error for the user.
    pub fn message(&self) -> (text: String)
        ensures
            text@ == self.message_text(),
    {
        match self {
            Error::ExclusiveModes => String::from_str(
                "multisprite, raw and reversed flags are exclusive",
            ),
            Error::SecondColor { line, sprite } => {
                let mut text: String = String::from_str("Second color found on line ");
                push_decimal(&mut text, *line as u128);
                text.append(" of sprite ");
                text.append(sprite.as_str());
                text
            },
            Error::UnknownCharacter { character, text } => {
                let mut message: String = String::from_str("Unknown character ");
                push_char(&mut message, *character);
                message.append(" on line ");
                message.append(text.as_str());
                message
            },
        }
    }
}

} // verus!
