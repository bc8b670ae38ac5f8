use vstd::prelude::*;

verus! {

/// What kind of character a code point stands for.
#[derive(Debug, Clone, Copy, PartialEq, Eq, Structural)]
pub enum CharacterType {
    Letter,
    Digit,
    Greek,
    Other,
}

/// The typeface of a styled character.
#[derive(Debug, Clone, Copy, PartialEq, Eq, Structural)]
pub enum StyledLetter {
    Serif,
    SansSerif,
    Script,
    Fraktur,
    MonoSpace,
    DoubleStruck,
}

/// The weight and slant of a styled character.
#[derive(Debug, Clone, Copy, PartialEq, Eq, Structural)]
pub enum LetterStyle {
    Normal,
    Bold,
    Italic,
    BoldItalic,
}

/// Why a character could not be given the requested style.
///
/// `InvalidTypeError` and `InvalidStyleError` are the two forms of an
/// unsupported combination: the first says that the character's category has
/// no table at all in the requested typeface, the second that the table
/// exists but has no entry for the requested emphasis.
#[derive(Debug, Clone, Copy, PartialEq, Eq, Structural)]
pub enum LetterTypeError {
    /// The offset is not below the length of the category's alphabet.
    ExceedLengthError(usize),
    InvalidTypeError,
    InvalidStyleError,
    /// The number is not a Unicode scalar value.
    InvalidCodeError(u32),
}

impl LetterTypeError {
    /// True of the two errors that report an unsupported combination of
    /// category, typeface and emphasis.
    pub open spec fn is_unsupported(self) -> bool {
        self is InvalidTypeError || self is InvalidStyleError
    }

    pub fn is_unsupported_combination(&self) -> (b: bool)
        ensures
            b == self.is_unsupported(),
    {
        match self {
            LetterTypeError::InvalidTypeError => true,
            LetterTypeError::InvalidStyleError => true,
            _ => false,
        }
    }
}

} // verus!
