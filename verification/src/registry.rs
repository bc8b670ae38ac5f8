use vstd::prelude::*;
use crate::kinds::{CharacterType, LetterStyle, LetterTypeError, StyledLetter};

verus! {

/// The code points at which the capital and the small forms of one style
/// begin, in that order. Digits have no case: both numbers are the same.
pub type Bases = (u32, u32);

/// The bases of one typeface for one category, one entry per emphasis.
/// `None` says that the emphasis does not exist there.
#[derive(Debug, Clone, Copy)]
pub struct SlotRange {
    pub normal: Option<Bases>,
    pub bold: Option<Bases>,
    pub italic: Option<Bases>,
    pub bold_italic: Option<Bases>,
}

impl SlotRange {
    pub open spec fn start(self, emphasis: LetterStyle) -> Option<Bases> {
        match emphasis {
            LetterStyle::Normal => self.normal,
            LetterStyle::Bold => self.bold,
            LetterStyle::Italic => self.italic,
            LetterStyle::BoldItalic => self.bold_italic,
        }
    }
}

/// The number of offsets that can be encoded in a category. The Greek
/// alphabets count 26 places: the 24 letters, the place that the plain
/// capitals leave empty, and the symbol that closes each alphabet.
pub open spec fn alphabet_len(category: CharacterType) -> nat {
    match category {
        CharacterType::Letter => 26,
        CharacterType::Greek => 26,
        CharacterType::Digit => 10,
        CharacterType::Other => 0,
    }
}

/// The length of the alphabet of a category.
pub fn alphabet_length(category: CharacterType) -> (n: usize)
    ensures
        n == alphabet_len(category),
{
    match category {
        CharacterType::Letter => 26,
        CharacterType::Greek => 26,
        CharacterType::Digit => 10,
        CharacterType::Other => 0,
    }
}

/// The number of consecutive code points, counted from a base, that are read
/// as characters of the category: as many as the alphabet has. Digits have
/// no case and are read as small forms only.
pub open spec fn range_len(category: CharacterType, uppercase: bool) -> nat {
    match category {
        CharacterType::Letter => 26,
        CharacterType::Greek => 26,
        CharacterType::Digit => if uppercase { 0 } else { 10 },
        CharacterType::Other => 0,
    }
}

/// The table of a typeface for a category, or `None` where the category has
/// no table in that typeface.
pub open spec fn slot_range(family: StyledLetter, category: CharacterType) -> Option<SlotRange> {
    match category {
        CharacterType::Letter => Some(
            match family {
                StyledLetter::Serif => SlotRange {
                    normal: Some((0x41u32, 0x61u32)),
                    bold: Some((0x1D400u32, 0x1D41Au32)),
                    italic: Some((0x1D434u32, 0x1D44Eu32)),
                    bold_italic: Some((0x1D468u32, 0x1D482u32)),
                },
                StyledLetter::SansSerif => SlotRange {
                    normal: Some((0x1D5A0u32, 0x1D5BAu32)),
                    bold: Some((0x1D5D4u32, 0x1D5EEu32)),
                    italic: Some((0x1D608u32, 0x1D622u32)),
                    bold_italic: Some((0x1D63Cu32, 0x1D656u32)),
                },
                StyledLetter::Script => SlotRange {
                    normal: Some((0x1D49Cu32, 0x1D4B6u32)),
                    bold: Some((0x1D4D0u32, 0x1D4EAu32)),
                    italic: None,
                    bold_italic: None,
                },
                StyledLetter::Fraktur => SlotRange {
                    normal: Some((0x1D504u32, 0x1D51Eu32)),
                    bold: Some((0x1D56Cu32, 0x1D586u32)),
                    italic: None,
                    bold_italic: None,
                },
                StyledLetter::MonoSpace => SlotRange {
                    normal: Some((0x1D670u32, 0x1D68Au32)),
                    bold: None,
                    italic: None,
                    bold_italic: None,
                },
                StyledLetter::DoubleStruck => SlotRange {
                    normal: None,
                    bold: Some((0x1D538u32, 0x1D552u32)),
                    italic: None,
                    bold_italic: None,
                },
            },
        ),
        CharacterType::Greek => match family {
            StyledLetter::Serif => Some(
                SlotRange {
                    normal: Some((0x391u32, 0x3B1u32)),
                    bold: Some((0x1D6A8u32, 0x1D6C2u32)),
                    italic: Some((0x1D6E2u32, 0x1D6FCu32)),
                    bold_italic: Some((0x1D71Cu32, 0x1D736u32)),
                },
            ),
            StyledLetter::SansSerif => Some(
                SlotRange {
                    normal: None,
                    bold: Some((0x1D756u32, 0x1D770u32)),
                    italic: None,
                    bold_italic: Some((0x1D790u32, 0x1D7AAu32)),
                },
            ),
            _ => None,
        },
        CharacterType::Digit => match family {
            StyledLetter::Serif => Some(
                SlotRange {
                    normal: Some((0x30u32, 0x30u32)),
                    bold: Some((0x1D7CEu32, 0x1D7CEu32)),
                    italic: None,
                    bold_italic: None,
                },
            ),
            StyledLetter::SansSerif => Some(
                SlotRange {
                    normal: Some((0x1D7E2u32, 0x1D7E2u32)),
                    bold: Some((0x1D7ECu32, 0x1D7ECu32)),
                    italic: None,
                    bold_italic: None,
                },
            ),
            StyledLetter::MonoSpace => Some(
                SlotRange {
                    normal: Some((0x1D7F6u32, 0x1D7F6u32)),
                    bold: None,
                    italic: None,
                    bold_italic: None,
                },
            ),
            StyledLetter::DoubleStruck => Some(
                SlotRange {
                    normal: Some((0x1D7D8u32, 0x1D7D8u32)),
                    bold: None,
                    italic: None,
                    bold_italic: None,
                },
            ),
            _ => None,
        },
        CharacterType::Other => None,
    }
}

/// Whether the category has a table in the typeface.
pub open spec fn has_table(family: StyledLetter, category: CharacterType) -> bool {
    slot_range(family, category) is Some
}

/// The bases of one style of a category, or `None` where the style does not
/// exist for it.
pub open spec fn slot_for(
    family: StyledLetter,
    category: CharacterType,
    emphasis: LetterStyle,
) -> Option<Bases> {
    match slot_range(family, category) {
        Some(range) => range.start(emphasis),
        None => None,
    }
}

/// The base of one case of a pair.
pub open spec fn base_of(bases: Bases, uppercase: bool) -> u32 {
    if uppercase {
        bases.0
    } else {
        bases.1
    }
}

/// The code point that stands at an offset in place of the one that the base
/// would give, or `None` where the base gives it. These are the letters that
/// Unicode had already encoded elsewhere when the styled alphabets were laid
/// out, and the symbols that follow the Greek alphabets. The small Greek
/// table lists six variant letters at the offsets 26 to 31, beyond the
/// alphabet: no character is written from them and none is read as one.
pub open spec fn override_char(
    family: StyledLetter,
    category: CharacterType,
    emphasis: LetterStyle,
    uppercase: bool,
    offset: usize,
) -> Option<char> {
    match (family, category, emphasis, uppercase) {
        (StyledLetter::Script, CharacterType::Letter, LetterStyle::Normal, true) => {
            if offset == 1 {
                Some('\u{212C}')
            } else if offset == 4 {
                Some('\u{2130}')
            } else if offset == 5 {
                Some('\u{2131}')
            } else if offset == 7 {
                Some('\u{210B}')
            } else if offset == 8 {
                Some('\u{2110}')
            } else if offset == 11 {
                Some('\u{2112}')
            } else if offset == 12 {
                Some('\u{2133}')
            } else if offset == 17 {
                Some('\u{211B}')
            } else {
                None
            }
        },
        (StyledLetter::Script, CharacterType::Letter, LetterStyle::Normal, false) => {
            if offset == 4 {
                Some('\u{212F}')
            } else if offset == 6 {
                Some('\u{210A}')
            } else if offset == 14 {
                Some('\u{2134}')
            } else {
                None
            }
        },
        (StyledLetter::Fraktur, CharacterType::Letter, LetterStyle::Normal, true) => {
            if offset == 2 {
                Some('\u{212D}')
            } else if offset == 7 {
                Some('\u{210C}')
            } else if offset == 8 {
                Some('\u{2111}')
            } else if offset == 17 {
                Some('\u{211C}')
            } else if offset == 25 {
                Some('\u{2128}')
            } else {
                None
            }
        },
        (StyledLetter::DoubleStruck, CharacterType::Letter, LetterStyle::Bold, true) => {
            if offset == 2 {
                Some('\u{2102}')
            } else if offset == 7 {
                Some('\u{210D}')
            } else if offset == 13 {
                Some('\u{2115}')
            } else if offset == 15 {
                Some('\u{2119}')
            } else if offset == 16 {
                Some('\u{211A}')
            } else if offset == 17 {
                Some('\u{211D}')
            } else if offset == 25 {
                Some('\u{2124}')
            } else {
                None
            }
        },
        (StyledLetter::Serif, CharacterType::Letter, LetterStyle::Italic, false) => {
            if offset == 7 {
                Some('\u{210E}')
            } else {
                None
            }
        },
        (StyledLetter::Serif, CharacterType::Greek, LetterStyle::Normal, true) => {
            if offset == 17 {
                Some('\u{3F4}')
            } else if offset == 25 {
                Some('\u{2207}')
            } else {
                None
            }
        },
        (StyledLetter::Serif, CharacterType::Greek, LetterStyle::Normal, false) => {
            if offset == 25 {
                Some('\u{2202}')
            } else if offset == 26 {
                Some('\u{3F5}')
            } else if offset == 27 {
                Some('\u{3D1}')
            } else if offset == 28 {
                Some('\u{3F0}')
            } else if offset == 29 {
                Some('\u{3D5}')
            } else if offset == 30 {
                Some('\u{3F1}')
            } else if offset == 31 {
                Some('\u{3D6}')
            } else {
                None
            }
        },
        _ => None,
    }
}

/// The character of a category at an offset, in a typeface whose table for
/// the category exists: the override where there is one, else base plus
/// offset.
pub open spec fn slot_char(
    family: StyledLetter,
    category: CharacterType,
    emphasis: LetterStyle,
    uppercase: bool,
    offset: usize,
) -> Result<char, LetterTypeError> {
    if offset >= alphabet_len(category) {
        Err(LetterTypeError::ExceedLengthError(offset))
    } else {
        match override_char(family, category, emphasis, uppercase, offset) {
            Some(c) => Ok(c),
            None => match slot_for(family, category, emphasis) {
                Some(bases) => Ok((base_of(bases, uppercase) + offset) as char),
                None => Err(LetterTypeError::InvalidStyleError),
            },
        }
    }
}

/// The character of a category at an offset in the requested typeface and
/// emphasis, or the reason why there is none.
pub open spec fn encoded(
    category: CharacterType,
    uppercase: bool,
    offset: usize,
    family: StyledLetter,
    emphasis: LetterStyle,
) -> Result<char, LetterTypeError> {
    if !has_table(family, category) {
        Err(LetterTypeError::InvalidTypeError)
    } else {
        slot_char(family, category, emphasis, uppercase, offset)
    }
}

/// The numbers that are Unicode scalar values: every code point but the
/// surrogates.
pub open spec fn is_scalar_value(code: int) -> bool {
    0 <= code <= 0xD7FF || 0xE000 <= code <= 0x10FFFF
}

/// `char::from_u32` of the standard library, not proved here: it returns
/// the character with the given number where the number is a Unicode scalar
/// value, and `None` for a surrogate and for a number above 0x10FFFF.
pub assume_specification[ char::from_u32 ](i: u32) -> (r: Option<char>)
    ensures
        is_scalar_value(i as int) ==> r == Some(i as char),
        !is_scalar_value(i as int) ==> r is None,
;

/// The character with the given number, or `InvalidCodeError` with the
/// number where it is not a scalar value.
pub fn code_to_char(code: u32) -> (r: Result<char, LetterTypeError>)
    ensures
        is_scalar_value(code as int) ==> r == Ok::<char, LetterTypeError>(code as char),
        !is_scalar_value(code as int) ==> r == Err::<char, LetterTypeError>(
            LetterTypeError::InvalidCodeError(code),
        ),
{
    match char::from_u32(code) {
        Some(c) => Ok(c),
        None => Err(LetterTypeError::InvalidCodeError(code)),
    }
}

} // verus!
