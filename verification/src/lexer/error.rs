//! What can be wrong with the text of a compilation unit.
use vstd::prelude::*;

verus! {

#[derive(Clone, Copy, Debug, PartialEq, Eq, Structural)]
pub enum LexerError {
    /// The text has more characters than an offset can count.
    TextTooLong,
    /// The character starts no word.
    UnexpectedCharacter(char),
    /// The number does not fit its type, or its type is unknown.
    InvalidInteger,
    /// The line ends before the string literal does.
    StringDoesNotEnd,
    /// The character after the backslash stands for nothing.
    InvalidEscape,
    /// The table of names is full.
    TooManyNames,
}

impl View for LexerError {
    type V = LexerError;

    open spec fn view(&self) -> LexerError {
        *self
    }
}

} // verus!
