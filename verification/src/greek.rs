use vstd::prelude::*;
use crate::kinds::{CharacterType, LetterStyle, LetterTypeError, StyledLetter};
use crate::latin::TypeStyle;
use crate::lookup::{based_char, find_offset, lists_overrides};
use crate::registry::{alphabet_len, slot_char, slot_range, SlotRange};

verus! {
/// The serif Greek letters: the plain ones and their bold and italic forms.
#[derive(Debug)]
pub struct GreekType {
    number: usize,
    slots: SlotRange,
}

impl GreekType {
    /// The number of letters.
    pub closed spec fn length(&self) -> nat {
        self.number as nat
    }

    /// The bases that the value holds.
    pub closed spec fn table(&self) -> SlotRange {
        self.slots
    }

    #[verifier::type_invariant]
    spec fn holds_registry(&self) -> bool {
        &&& self.number == alphabet_len(CharacterType::Greek)
        &&& slot_range(StyledLetter::Serif, CharacterType::Greek) == Some(self.slots)
    }

    /// The table of the serif Greek letters.
    pub fn new() -> (s: Self)
        ensures
            s.length() == alphabet_len(CharacterType::Greek),
            slot_range(StyledLetter::Serif, CharacterType::Greek) == Some(s.table()),
    {
        Self {
            number: 26,
            slots: SlotRange {
                normal: Some((0x391, 0x3B1)),
                bold: Some((0x1D6A8, 0x1D6C2)),
                italic: Some((0x1D6E2, 0x1D6FC)),
                bold_italic: Some((0x1D71C, 0x1D736)),
            },
        }
    }

    /// The offsets at which the plain Greek block has no letter of its own,
    /// with the symbols that stand there: the capital theta symbol and nabla
    /// among the capitals; the partial differential, which closes the small
    /// alphabet, and behind it the six variant letters. The variant letters
    /// stand at the offsets 26 to 31, beyond the alphabet: the table lists
    /// them, but none is ever written or read as a letter.
    pub fn get_normal_corner_case(uppercase: bool) -> (r: (Vec<usize>, Vec<char>))
        ensures
            lists_overrides(
                r.0@,
                r.1@,
                StyledLetter::Serif,
                CharacterType::Greek,
                LetterStyle::Normal,
                uppercase,
            ),
    {
        if uppercase {
            let indices: Vec<usize> = vec![17, 25];
            let chars: Vec<char> = vec!['\u{3F4}', '\u{2207}'];
            proof {
                assert(indices@.contains(17)) by {
                    assert(indices@[0] == 17);
                }
                assert(indices@.contains(25)) by {
                    assert(indices@[1] == 25);
                }
            }
            (indices, chars)
        } else {
            let indices: Vec<usize> = vec![25, 26, 27, 28, 29, 30, 31];
            let chars: Vec<char> = vec![
                '\u{2202}',
                '\u{3F5}',
                '\u{3D1}',
                '\u{3F0}',
                '\u{3D5}',
                '\u{3F1}',
                '\u{3D6}',
            ];
            proof {
                assert(indices@.contains(25)) by {
                    assert(indices@[0] == 25);
                }
                assert(indices@.contains(26)) by {
                    assert(indices@[1] == 26);
                }
                assert(indices@.contains(27)) by {
                    assert(indices@[2] == 27);
                }
                assert(indices@.contains(28)) by {
                    assert(indices@[3] == 28);
                }
                assert(indices@.contains(29)) by {
                    assert(indices@[4] == 29);
                }
                assert(indices@.contains(30)) by {
                    assert(indices@[5] == 30);
                }
                assert(indices@.contains(31)) by {
                    assert(indices@[6] == 31);
                }
            }
            (indices, chars)
        }
    }

    /// The normal serif Greek letter at an offset, in the given case.
    pub fn normal(&self, offset: usize, uppercase: bool) -> (r: Result<char, LetterTypeError>)
        ensures
            r == slot_char(
                StyledLetter::Serif,
                CharacterType::Greek,
                LetterStyle::Normal,
                uppercase,
                offset,
            ),
    {
        proof {
            use_type_invariant(self);
        }
        if offset >= self.number {
            return Err(LetterTypeError::ExceedLengthError(offset));
        }
        if let Some(bases) = self.slots.normal {
            let (indices, chars) = Self::get_normal_corner_case(uppercase);
            if let Some(index) = find_offset(&indices, offset) {
                return Ok(chars[index]);
            }
            return based_char(bases, uppercase, offset);
        }
        Err(LetterTypeError::InvalidStyleError)
    }

    /// The bold serif Greek letter at an offset, in the given case.
    pub fn bold(&self, offset: usize, uppercase: bool) -> (r: Result<char, LetterTypeError>)
        ensures
            r == slot_char(
                StyledLetter::Serif,
                CharacterType::Greek,
                LetterStyle::Bold,
                uppercase,
                offset,
            ),
    {
        proof {
            use_type_invariant(self);
        }
        if offset >= self.number {
            return Err(LetterTypeError::ExceedLengthError(offset));
        }
        if let Some(bases) = self.slots.bold {
            return based_char(bases, uppercase, offset);
        }
        Err(LetterTypeError::InvalidStyleError)
    }

    /// The italic serif Greek letter at an offset, in the given case.
    pub fn italic(&self, offset: usize, uppercase: bool) -> (r: Result<char, LetterTypeError>)
        ensures
            r == slot_char(
                StyledLetter::Serif,
                CharacterType::Greek,
                LetterStyle::Italic,
                uppercase,
                offset,
            ),
    {
        proof {
            use_type_invariant(self);
        }
        if offset >= self.number {
            return Err(LetterTypeError::ExceedLengthError(offset));
        }
        if let Some(bases) = self.slots.italic {
            return based_char(bases, uppercase, offset);
        }
        Err(LetterTypeError::InvalidStyleError)
    }

    /// The bold italic serif Greek letter at an offset, in the given case.
    pub fn bold_italic(&self, offset: usize, uppercase: bool) -> (r: Result<char, LetterTypeError>)
        ensures
            r == slot_char(
                StyledLetter::Serif,
                CharacterType::Greek,
                LetterStyle::BoldItalic,
                uppercase,
                offset,
            ),
    {
        proof {
            use_type_invariant(self);
        }
        if offset >= self.number {
            return Err(LetterTypeError::ExceedLengthError(offset));
        }
        if let Some(bases) = self.slots.bold_italic {
            return based_char(bases, uppercase, offset);
        }
        Err(LetterTypeError::InvalidStyleError)
    }
}

impl TypeStyle for GreekType {
    open spec fn family(&self) -> StyledLetter {
        StyledLetter::Serif
    }

    open spec fn category(&self) -> CharacterType {
        CharacterType::Greek
    }

    fn get_char(&self, offset: usize, style: &LetterStyle, uppercase: bool) -> (r: Result<
        char,
        LetterTypeError,
    >) {
        match *style {
            LetterStyle::Normal => self.normal(offset, uppercase),
            LetterStyle::Italic => self.italic(offset, uppercase),
            LetterStyle::Bold => self.bold(offset, uppercase),
            LetterStyle::BoldItalic => self.bold_italic(offset, uppercase),
        }
    }
}

/// The sans-serif Greek letters, which exist in bold and bold italic only.
#[derive(Debug)]
pub struct GreekSansSerifType {
    number: usize,
    slots: SlotRange,
}

impl GreekSansSerifType {
    /// The number of letters.
    pub closed spec fn length(&self) -> nat {
        self.number as nat
    }

    /// The bases that the value holds.
    pub closed spec fn table(&self) -> SlotRange {
        self.slots
    }

    #[verifier::type_invariant]
    spec fn holds_registry(&self) -> bool {
        &&& self.number == alphabet_len(CharacterType::Greek)
        &&& slot_range(StyledLetter::SansSerif, CharacterType::Greek) == Some(self.slots)
    }

    /// The table of the sans-serif Greek letters.
    pub fn new() -> (s: Self)
        ensures
            s.length() == alphabet_len(CharacterType::Greek),
            slot_range(StyledLetter::SansSerif, CharacterType::Greek) == Some(s.table()),
    {
        Self {
            number: 26,
            slots: SlotRange {
                normal: None,
                bold: Some((0x1D756, 0x1D770)),
                italic: None,
                bold_italic: Some((0x1D790, 0x1D7AA)),
            },
        }
    }

    /// There is no normal sans-serif Greek letter: every offset within the alphabet is refused.
    pub fn normal(&self, offset: usize, uppercase: bool) -> (r: Result<char, LetterTypeError>)
        ensures
            r == slot_char(
                StyledLetter::SansSerif,
                CharacterType::Greek,
                LetterStyle::Normal,
                uppercase,
                offset,
            ),
    {
        proof {
            use_type_invariant(self);
        }
        if offset >= self.number {
            return Err(LetterTypeError::ExceedLengthError(offset));
        }
        Err(LetterTypeError::InvalidStyleError)
    }

    /// The bold sans-serif Greek letter at an offset, in the given case.
    pub fn bold(&self, offset: usize, uppercase: bool) -> (r: Result<char, LetterTypeError>)
        ensures
            r == slot_char(
                StyledLetter::SansSerif,
                CharacterType::Greek,
                LetterStyle::Bold,
                uppercase,
                offset,
            ),
    {
        proof {
            use_type_invariant(self);
        }
        if offset >= self.number {
            return Err(LetterTypeError::ExceedLengthError(offset));
        }
        if let Some(bases) = self.slots.bold {
            return based_char(bases, uppercase, offset);
        }
        Err(LetterTypeError::InvalidStyleError)
    }

    /// There is no italic sans-serif Greek letter: every offset within the alphabet is refused.
    pub fn italic(&self, offset: usize, uppercase: bool) -> (r: Result<char, LetterTypeError>)
        ensures
            r == slot_char(
                StyledLetter::SansSerif,
                CharacterType::Greek,
                LetterStyle::Italic,
                uppercase,
                offset,
            ),
    {
        proof {
            use_type_invariant(self);
        }
        if offset >= self.number {
            return Err(LetterTypeError::ExceedLengthError(offset));
        }
        Err(LetterTypeError::InvalidStyleError)
    }

    /// The bold italic sans-serif Greek letter at an offset, in the given case.
    pub fn bold_italic(&self, offset: usize, uppercase: bool) -> (r: Result<char, LetterTypeError>)
        ensures
            r == slot_char(
                StyledLetter::SansSerif,
                CharacterType::Greek,
                LetterStyle::BoldItalic,
                uppercase,
                offset,
            ),
    {
        proof {
            use_type_invariant(self);
        }
        if offset >= self.number {
            return Err(LetterTypeError::ExceedLengthError(offset));
        }
        if let Some(bases) = self.slots.bold_italic {
            return based_char(bases, uppercase, offset);
        }
        Err(LetterTypeError::InvalidStyleError)
    }
}

impl TypeStyle for GreekSansSerifType {
    open spec fn family(&self) -> StyledLetter {
        StyledLetter::SansSerif
    }

    open spec fn category(&self) -> CharacterType {
        CharacterType::Greek
    }

    fn get_char(&self, offset: usize, style: &LetterStyle, uppercase: bool) -> (r: Result<
        char,
        LetterTypeError,
    >) {
        match *style {
            LetterStyle::Normal => self.normal(offset, uppercase),
            LetterStyle::Italic => self.italic(offset, uppercase),
            LetterStyle::Bold => self.bold(offset, uppercase),
            LetterStyle::BoldItalic => self.bold_italic(offset, uppercase),
        }
    }
}

} // verus!
