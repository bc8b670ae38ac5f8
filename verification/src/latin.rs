use vstd::prelude::*;
use crate::kinds::{CharacterType, LetterStyle, LetterTypeError, StyledLetter};
use crate::lookup::{based_char, find_offset, lists_overrides};
use crate::registry::{alphabet_len, slot_char, slot_range, SlotRange};

verus! {
/// A table that yields the characters of one category in one typeface.
pub trait TypeStyle {
    /// The typeface of the table.
    spec fn family(&self) -> StyledLetter;

    /// The category of the table.
    spec fn category(&self) -> CharacterType;

    /// The character at an offset in the given emphasis and case.
    fn get_char(&self, offset: usize, style: &LetterStyle, uppercase: bool) -> (r: Result<
        char,
        LetterTypeError,
    >)
        ensures
            r == slot_char(self.family(), self.category(), *style, uppercase, offset),
    ;
}

/// The serif letters: the plain letters of ASCII and their bold and italic forms.
#[derive(Debug)]
pub struct SerifType {
    number: usize,
    slots: SlotRange,
}

impl SerifType {
    /// The number of letters.
    pub closed spec fn length(&self) -> nat {
        self.number as nat
    }

    /// The bases that the value holds.
    pub closed spec fn table(&self) -> SlotRange {
        self.slots
    }

    #[verifier::type_invariant]
    spec fn holds_registry(&self) -> bool {
        &&& self.number == alphabet_len(CharacterType::Letter)
        &&& slot_range(StyledLetter::Serif, CharacterType::Letter) == Some(self.slots)
    }

    /// The table of the serif letters.
    pub fn new() -> (s: Self)
        ensures
            s.length() == alphabet_len(CharacterType::Letter),
            slot_range(StyledLetter::Serif, CharacterType::Letter) == Some(s.table()),
    {
        Self {
            number: 26,
            slots: SlotRange {
                normal: Some((0x41, 0x61)),
                bold: Some((0x1D400, 0x1D41A)),
                italic: Some((0x1D434, 0x1D44E)),
                bold_italic: Some((0x1D468, 0x1D482)),
            },
        }
    }

    /// The normal serif letter at an offset, in the given case.
    pub fn normal(&self, offset: usize, uppercase: bool) -> (r: Result<char, LetterTypeError>)
        ensures
            r == slot_char(
                StyledLetter::Serif,
                CharacterType::Letter,
                LetterStyle::Normal,
                uppercase,
                offset,
            ),
    {
        proof {
            use_type_invariant(self);
        }
        if offset >= self.number {
            return Err(LetterTypeError::ExceedLengthError(offset));
        }
        if let Some(bases) = self.slots.normal {
            return based_char(bases, uppercase, offset);
        }
        Err(LetterTypeError::InvalidStyleError)
    }

    /// The bold serif letter at an offset, in the given case.
    pub fn bold(&self, offset: usize, uppercase: bool) -> (r: Result<char, LetterTypeError>)
        ensures
            r == slot_char(
                StyledLetter::Serif,
                CharacterType::Letter,
                LetterStyle::Bold,
                uppercase,
                offset,
            ),
    {
        proof {
            use_type_invariant(self);
        }
        if offset >= self.number {
            return Err(LetterTypeError::ExceedLengthError(offset));
        }
        if let Some(bases) = self.slots.bold {
            return based_char(bases, uppercase, offset);
        }
        Err(LetterTypeError::InvalidStyleError)
    }

    /// The italic serif letter at an offset, in the given case.
    /// The small h is the Planck constant among the letterlike symbols.
    pub fn italic(&self, offset: usize, uppercase: bool) -> (r: Result<char, LetterTypeError>)
        ensures
            r == slot_char(
                StyledLetter::Serif,
                CharacterType::Letter,
                LetterStyle::Italic,
                uppercase,
                offset,
            ),
    {
        proof {
            use_type_invariant(self);
        }
        if offset >= self.number {
            return Err(LetterTypeError::ExceedLengthError(offset));
        }
        if let Some(bases) = self.slots.italic {
            if !uppercase && offset == 7 {
                return Ok('\u{210E}');
            }
            return based_char(bases, uppercase, offset);
        }
        Err(LetterTypeError::InvalidStyleError)
    }

    /// The bold italic serif letter at an offset, in the given case.
    pub fn bold_italic(&self, offset: usize, uppercase: bool) -> (r: Result<char, LetterTypeError>)
        ensures
            r == slot_char(
                StyledLetter::Serif,
                CharacterType::Letter,
                LetterStyle::BoldItalic,
                uppercase,
                offset,
            ),
    {
        proof {
            use_type_invariant(self);
        }
        if offset >= self.number {
            return Err(LetterTypeError::ExceedLengthError(offset));
        }
        if let Some(bases) = self.slots.bold_italic {
            return based_char(bases, uppercase, offset);
        }
        Err(LetterTypeError::InvalidStyleError)
    }
}

impl TypeStyle for SerifType {
    open spec fn family(&self) -> StyledLetter {
        StyledLetter::Serif
    }

    open spec fn category(&self) -> CharacterType {
        CharacterType::Letter
    }

    fn get_char(&self, offset: usize, style: &LetterStyle, uppercase: bool) -> (r: Result<
        char,
        LetterTypeError,
    >) {
        match *style {
            LetterStyle::Normal => self.normal(offset, uppercase),
            LetterStyle::Italic => self.italic(offset, uppercase),
            LetterStyle::Bold => self.bold(offset, uppercase),
            LetterStyle::BoldItalic => self.bold_italic(offset, uppercase),
        }
    }
}

/// The sans-serif letters.
#[derive(Debug)]
pub struct SansSerifType {
    number: usize,
    slots: SlotRange,
}

impl SansSerifType {
    /// The number of letters.
    pub closed spec fn length(&self) -> nat {
        self.number as nat
    }

    /// The bases that the value holds.
    pub closed spec fn table(&self) -> SlotRange {
        self.slots
    }

    #[verifier::type_invariant]
    spec fn holds_registry(&self) -> bool {
        &&& self.number == alphabet_len(CharacterType::Letter)
        &&& slot_range(StyledLetter::SansSerif, CharacterType::Letter) == Some(self.slots)
    }

    /// The table of the sans-serif letters.
    pub fn new() -> (s: Self)
        ensures
            s.length() == alphabet_len(CharacterType::Letter),
            slot_range(StyledLetter::SansSerif, CharacterType::Letter) == Some(s.table()),
    {
        Self {
            number: 26,
            slots: SlotRange {
                normal: Some((0x1D5A0, 0x1D5BA)),
                bold: Some((0x1D5D4, 0x1D5EE)),
                italic: Some((0x1D608, 0x1D622)),
                bold_italic: Some((0x1D63C, 0x1D656)),
            },
        }
    }

    /// The normal sans-serif letter at an offset, in the given case.
    pub fn normal(&self, offset: usize, uppercase: bool) -> (r: Result<char, LetterTypeError>)
        ensures
            r == slot_char(
                StyledLetter::SansSerif,
                CharacterType::Letter,
                LetterStyle::Normal,
                uppercase,
                offset,
            ),
    {
        proof {
            use_type_invariant(self);
        }
        if offset >= self.number {
            return Err(LetterTypeError::ExceedLengthError(offset));
        }
        if let Some(bases) = self.slots.normal {
            return based_char(bases, uppercase, offset);
        }
        Err(LetterTypeError::InvalidStyleError)
    }

    /// The bold sans-serif letter at an offset, in the given case.
    pub fn bold(&self, offset: usize, uppercase: bool) -> (r: Result<char, LetterTypeError>)
        ensures
            r == slot_char(
                StyledLetter::SansSerif,
                CharacterType::Letter,
                LetterStyle::Bold,
                uppercase,
                offset,
            ),
    {
        proof {
            use_type_invariant(self);
        }
        if offset >= self.number {
            return Err(LetterTypeError::ExceedLengthError(offset));
        }
        if let Some(bases) = self.slots.bold {
            return based_char(bases, uppercase, offset);
        }
        Err(LetterTypeError::InvalidStyleError)
    }

    /// The italic sans-serif letter at an offset, in the given case.
    pub fn italic(&self, offset: usize, uppercase: bool) -> (r: Result<char, LetterTypeError>)
        ensures
            r == slot_char(
                StyledLetter::SansSerif,
                CharacterType::Letter,
                LetterStyle::Italic,
                uppercase,
                offset,
            ),
    {
        proof {
            use_type_invariant(self);
        }
        if offset >= self.number {
            return Err(LetterTypeError::ExceedLengthError(offset));
        }
        if let Some(bases) = self.slots.italic {
            return based_char(bases, uppercase, offset);
        }
        Err(LetterTypeError::InvalidStyleError)
    }

    /// The bold italic sans-serif letter at an offset, in the given case.
    pub fn bold_italic(&self, offset: usize, uppercase: bool) -> (r: Result<char, LetterTypeError>)
        ensures
            r == slot_char(
                StyledLetter::SansSerif,
                CharacterType::Letter,
                LetterStyle::BoldItalic,
                uppercase,
                offset,
            ),
    {
        proof {
            use_type_invariant(self);
        }
        if offset >= self.number {
            return Err(LetterTypeError::ExceedLengthError(offset));
        }
        if let Some(bases) = self.slots.bold_italic {
            return based_char(bases, uppercase, offset);
        }
        Err(LetterTypeError::InvalidStyleError)
    }
}

impl TypeStyle for SansSerifType {
    open spec fn family(&self) -> StyledLetter {
        StyledLetter::SansSerif
    }

    open spec fn category(&self) -> CharacterType {
        CharacterType::Letter
    }

    fn get_char(&self, offset: usize, style: &LetterStyle, uppercase: bool) -> (r: Result<
        char,
        LetterTypeError,
    >) {
        match *style {
            LetterStyle::Normal => self.normal(offset, uppercase),
            LetterStyle::Italic => self.italic(offset, uppercase),
            LetterStyle::Bold => self.bold(offset, uppercase),
            LetterStyle::BoldItalic => self.bold_italic(offset, uppercase),
        }
    }
}

/// The script letters, normal and bold.
#[derive(Debug)]
pub struct ScriptType {
    number: usize,
    slots: SlotRange,
}

impl ScriptType {
    /// The number of letters.
    pub closed spec fn length(&self) -> nat {
        self.number as nat
    }

    /// The bases that the value holds.
    pub closed spec fn table(&self) -> SlotRange {
        self.slots
    }

    #[verifier::type_invariant]
    spec fn holds_registry(&self) -> bool {
        &&& self.number == alphabet_len(CharacterType::Letter)
        &&& slot_range(StyledLetter::Script, CharacterType::Letter) == Some(self.slots)
    }

    /// The table of the script letters.
    pub fn new() -> (s: Self)
        ensures
            s.length() == alphabet_len(CharacterType::Letter),
            slot_range(StyledLetter::Script, CharacterType::Letter) == Some(s.table()),
    {
        Self {
            number: 26,
            slots: SlotRange {
                normal: Some((0x1D49C, 0x1D4B6)),
                bold: Some((0x1D4D0, 0x1D4EA)),
                italic: None,
                bold_italic: None,
            },
        }
    }

    /// The offsets of the normal script letters that live among the
    /// letterlike symbols, with those symbols: B, E, F, H, I, L, M and R of
    /// the capitals, e, g and o of the small letters.
    pub fn get_normal_corner_case(uppercase: bool) -> (r: (Vec<usize>, Vec<char>))
        ensures
            lists_overrides(
                r.0@,
                r.1@,
                StyledLetter::Script,
                CharacterType::Letter,
                LetterStyle::Normal,
                uppercase,
            ),
    {
        if uppercase {
            let indices: Vec<usize> = vec![1, 4, 5, 7, 8, 11, 12, 17];
            let chars: Vec<char> = vec![
                '\u{212C}',
                '\u{2130}',
                '\u{2131}',
                '\u{210B}',
                '\u{2110}',
                '\u{2112}',
                '\u{2133}',
                '\u{211B}',
            ];
            proof {
                assert(indices@.contains(1)) by {
                    assert(indices@[0] == 1);
                }
                assert(indices@.contains(4)) by {
                    assert(indices@[1] == 4);
                }
                assert(indices@.contains(5)) by {
                    assert(indices@[2] == 5);
                }
                assert(indices@.contains(7)) by {
                    assert(indices@[3] == 7);
                }
                assert(indices@.contains(8)) by {
                    assert(indices@[4] == 8);
                }
                assert(indices@.contains(11)) by {
                    assert(indices@[5] == 11);
                }
                assert(indices@.contains(12)) by {
                    assert(indices@[6] == 12);
                }
                assert(indices@.contains(17)) by {
                    assert(indices@[7] == 17);
                }
            }
            (indices, chars)
        } else {
            let indices: Vec<usize> = vec![4, 6, 14];
            let chars: Vec<char> = vec!['\u{212F}', '\u{210A}', '\u{2134}'];
            proof {
                assert(indices@.contains(4)) by {
                    assert(indices@[0] == 4);
                }
                assert(indices@.contains(6)) by {
                    assert(indices@[1] == 6);
                }
                assert(indices@.contains(14)) by {
                    assert(indices@[2] == 14);
                }
            }
            (indices, chars)
        }
    }

    /// The normal script letter at an offset, in the given case.
    pub fn normal(&self, offset: usize, uppercase: bool) -> (r: Result<char, LetterTypeError>)
        ensures
            r == slot_char(
                StyledLetter::Script,
                CharacterType::Letter,
                LetterStyle::Normal,
                uppercase,
                offset,
            ),
    {
        proof {
            use_type_invariant(self);
        }
        if offset >= self.number {
            return Err(LetterTypeError::ExceedLengthError(offset));
        }
        if let Some(bases) = self.slots.normal {
            let (indices, chars) = Self::get_normal_corner_case(uppercase);
            if let Some(index) = find_offset(&indices, offset) {
                return Ok(chars[index]);
            }
            return based_char(bases, uppercase, offset);
        }
        Err(LetterTypeError::InvalidStyleError)
    }

    /// The bold script letter at an offset, in the given case.
    pub fn bold(&self, offset: usize, uppercase: bool) -> (r: Result<char, LetterTypeError>)
        ensures
            r == slot_char(
                StyledLetter::Script,
                CharacterType::Letter,
                LetterStyle::Bold,
                uppercase,
                offset,
            ),
    {
        proof {
            use_type_invariant(self);
        }
        if offset >= self.number {
            return Err(LetterTypeError::ExceedLengthError(offset));
        }
        if let Some(bases) = self.slots.bold {
            return based_char(bases, uppercase, offset);
        }
        Err(LetterTypeError::InvalidStyleError)
    }

    /// There is no italic script letter: every offset within the alphabet is refused.
    pub fn italic(&self, offset: usize, uppercase: bool) -> (r: Result<char, LetterTypeError>)
        ensures
            r == slot_char(
                StyledLetter::Script,
                CharacterType::Letter,
                LetterStyle::Italic,
                uppercase,
                offset,
            ),
    {
        proof {
            use_type_invariant(self);
        }
        if offset >= self.number {
            return Err(LetterTypeError::ExceedLengthError(offset));
        }
        Err(LetterTypeError::InvalidStyleError)
    }

    /// There is no bold italic script letter: every offset within the alphabet is refused.
    pub fn bold_italic(&self, offset: usize, uppercase: bool) -> (r: Result<char, LetterTypeError>)
        ensures
            r == slot_char(
                StyledLetter::Script,
                CharacterType::Letter,
                LetterStyle::BoldItalic,
                uppercase,
                offset,
            ),
    {
        proof {
            use_type_invariant(self);
        }
        if offset >= self.number {
            return Err(LetterTypeError::ExceedLengthError(offset));
        }
        Err(LetterTypeError::InvalidStyleError)
    }
}

impl TypeStyle for ScriptType {
    open spec fn family(&self) -> StyledLetter {
        StyledLetter::Script
    }

    open spec fn category(&self) -> CharacterType {
        CharacterType::Letter
    }

    fn get_char(&self, offset: usize, style: &LetterStyle, uppercase: bool) -> (r: Result<
        char,
        LetterTypeError,
    >) {
        match *style {
            LetterStyle::Normal => self.normal(offset, uppercase),
            LetterStyle::Italic => self.italic(offset, uppercase),
            LetterStyle::Bold => self.bold(offset, uppercase),
            LetterStyle::BoldItalic => self.bold_italic(offset, uppercase),
        }
    }
}

/// The Fraktur letters, normal and bold.
#[derive(Debug)]
pub struct FrakturType {
    number: usize,
    slots: SlotRange,
}

impl FrakturType {
    /// The number of letters.
    pub closed spec fn length(&self) -> nat {
        self.number as nat
    }

    /// The bases that the value holds.
    pub closed spec fn table(&self) -> SlotRange {
        self.slots
    }

    #[verifier::type_invariant]
    spec fn holds_registry(&self) -> bool {
        &&& self.number == alphabet_len(CharacterType::Letter)
        &&& slot_range(StyledLetter::Fraktur, CharacterType::Letter) == Some(self.slots)
    }

    /// The table of the Fraktur letters.
    pub fn new() -> (s: Self)
        ensures
            s.length() == alphabet_len(CharacterType::Letter),
            slot_range(StyledLetter::Fraktur, CharacterType::Letter) == Some(s.table()),
    {
        Self {
            number: 26,
            slots: SlotRange {
                normal: Some((0x1D504, 0x1D51E)),
                bold: Some((0x1D56C, 0x1D586)),
                italic: None,
                bold_italic: None,
            },
        }
    }

    /// The offsets of the normal Fraktur capitals that live among the
    /// letterlike symbols, with those symbols: C, H, I, R and Z.
    pub fn get_normal_corner_case() -> (r: (Vec<usize>, Vec<char>))
        ensures
            lists_overrides(
                r.0@,
                r.1@,
                StyledLetter::Fraktur,
                CharacterType::Letter,
                LetterStyle::Normal,
                true,
            ),
    {
        let indices: Vec<usize> = vec![2, 7, 8, 17, 25];
        let chars: Vec<char> = vec![
            '\u{212D}',
            '\u{210C}',
            '\u{2111}',
            '\u{211C}',
            '\u{2128}',
        ];
        proof {
            assert(indices@.contains(2)) by {
                assert(indices@[0] == 2);
            }
            assert(indices@.contains(7)) by {
                assert(indices@[1] == 7);
            }
            assert(indices@.contains(8)) by {
                assert(indices@[2] == 8);
            }
            assert(indices@.contains(17)) by {
                assert(indices@[3] == 17);
            }
            assert(indices@.contains(25)) by {
                assert(indices@[4] == 25);
            }
        }
        (indices, chars)
    }

    /// The normal Fraktur letter at an offset, in the given case.
    pub fn normal(&self, offset: usize, uppercase: bool) -> (r: Result<char, LetterTypeError>)
        ensures
            r == slot_char(
                StyledLetter::Fraktur,
                CharacterType::Letter,
                LetterStyle::Normal,
                uppercase,
                offset,
            ),
    {
        proof {
            use_type_invariant(self);
        }
        if offset >= self.number {
            return Err(LetterTypeError::ExceedLengthError(offset));
        }
        if let Some(bases) = self.slots.normal {
            if uppercase {
                let (indices, chars) = Self::get_normal_corner_case();
                if let Some(index) = find_offset(&indices, offset) {
                    return Ok(chars[index]);
                }
            }
            return based_char(bases, uppercase, offset);
        }
        Err(LetterTypeError::InvalidStyleError)
    }

    /// The bold Fraktur letter at an offset, in the given case.
    pub fn bold(&self, offset: usize, uppercase: bool) -> (r: Result<char, LetterTypeError>)
        ensures
            r == slot_char(
                StyledLetter::Fraktur,
                CharacterType::Letter,
                LetterStyle::Bold,
                uppercase,
                offset,
            ),
    {
        proof {
            use_type_invariant(self);
        }
        if offset >= self.number {
            return Err(LetterTypeError::ExceedLengthError(offset));
        }
        if let Some(bases) = self.slots.bold {
            return based_char(bases, uppercase, offset);
        }
        Err(LetterTypeError::InvalidStyleError)
    }

    /// There is no italic Fraktur letter: every offset within the alphabet is refused.
    pub fn italic(&self, offset: usize, uppercase: bool) -> (r: Result<char, LetterTypeError>)
        ensures
            r == slot_char(
                StyledLetter::Fraktur,
                CharacterType::Letter,
                LetterStyle::Italic,
                uppercase,
                offset,
            ),
    {
        proof {
            use_type_invariant(self);
        }
        if offset >= self.number {
            return Err(LetterTypeError::ExceedLengthError(offset));
        }
        Err(LetterTypeError::InvalidStyleError)
    }

    /// There is no bold italic Fraktur letter: every offset within the alphabet is refused.
    pub fn bold_italic(&self, offset: usize, uppercase: bool) -> (r: Result<char, LetterTypeError>)
        ensures
            r == slot_char(
                StyledLetter::Fraktur,
                CharacterType::Letter,
                LetterStyle::BoldItalic,
                uppercase,
                offset,
            ),
    {
        proof {
            use_type_invariant(self);
        }
        if offset >= self.number {
            return Err(LetterTypeError::ExceedLengthError(offset));
        }
        Err(LetterTypeError::InvalidStyleError)
    }
}

impl TypeStyle for FrakturType {
    open spec fn family(&self) -> StyledLetter {
        StyledLetter::Fraktur
    }

    open spec fn category(&self) -> CharacterType {
        CharacterType::Letter
    }

    fn get_char(&self, offset: usize, style: &LetterStyle, uppercase: bool) -> (r: Result<
        char,
        LetterTypeError,
    >) {
        match *style {
            LetterStyle::Normal => self.normal(offset, uppercase),
            LetterStyle::Italic => self.italic(offset, uppercase),
            LetterStyle::Bold => self.bold(offset, uppercase),
            LetterStyle::BoldItalic => self.bold_italic(offset, uppercase),
        }
    }
}

/// The monospace letters, which exist in one emphasis only.
#[derive(Debug)]
pub struct MonoSpaceType {
    number: usize,
    slots: SlotRange,
}

impl MonoSpaceType {
    /// The number of letters.
    pub closed spec fn length(&self) -> nat {
        self.number as nat
    }

    /// The bases that the value holds.
    pub closed spec fn table(&self) -> SlotRange {
        self.slots
    }

    #[verifier::type_invariant]
    spec fn holds_registry(&self) -> bool {
        &&& self.number == alphabet_len(CharacterType::Letter)
        &&& slot_range(StyledLetter::MonoSpace, CharacterType::Letter) == Some(self.slots)
    }

    /// The table of the monospace letters.
    pub fn new() -> (s: Self)
        ensures
            s.length() == alphabet_len(CharacterType::Letter),
            slot_range(StyledLetter::MonoSpace, CharacterType::Letter) == Some(s.table()),
    {
        Self {
            number: 26,
            slots: SlotRange {
                normal: Some((0x1D670, 0x1D68A)),
                bold: None,
                italic: None,
                bold_italic: None,
            },
        }
    }

    /// The normal monospace letter at an offset, in the given case.
    pub fn normal(&self, offset: usize, uppercase: bool) -> (r: Result<char, LetterTypeError>)
        ensures
            r == slot_char(
                StyledLetter::MonoSpace,
                CharacterType::Letter,
                LetterStyle::Normal,
                uppercase,
                offset,
            ),
    {
        proof {
            use_type_invariant(self);
        }
        if offset >= self.number {
            return Err(LetterTypeError::ExceedLengthError(offset));
        }
        if let Some(bases) = self.slots.normal {
            return based_char(bases, uppercase, offset);
        }
        Err(LetterTypeError::InvalidStyleError)
    }

    /// There is no bold monospace letter: every offset within the alphabet is refused.
    pub fn bold(&self, offset: usize, uppercase: bool) -> (r: Result<char, LetterTypeError>)
        ensures
            r == slot_char(
                StyledLetter::MonoSpace,
                CharacterType::Letter,
                LetterStyle::Bold,
                uppercase,
                offset,
            ),
    {
        proof {
            use_type_invariant(self);
        }
        if offset >= self.number {
            return Err(LetterTypeError::ExceedLengthError(offset));
        }
        Err(LetterTypeError::InvalidStyleError)
    }

    /// There is no italic monospace letter: every offset within the alphabet is refused.
    pub fn italic(&self, offset: usize, uppercase: bool) -> (r: Result<char, LetterTypeError>)
        ensures
            r == slot_char(
                StyledLetter::MonoSpace,
                CharacterType::Letter,
                LetterStyle::Italic,
                uppercase,
                offset,
            ),
    {
        proof {
            use_type_invariant(self);
        }
        if offset >= self.number {
            return Err(LetterTypeError::ExceedLengthError(offset));
        }
        Err(LetterTypeError::InvalidStyleError)
    }

    /// There is no bold italic monospace letter: every offset within the alphabet is refused.
    pub fn bold_italic(&self, offset: usize, uppercase: bool) -> (r: Result<char, LetterTypeError>)
        ensures
            r == slot_char(
                StyledLetter::MonoSpace,
                CharacterType::Letter,
                LetterStyle::BoldItalic,
                uppercase,
                offset,
            ),
    {
        proof {
            use_type_invariant(self);
        }
        if offset >= self.number {
            return Err(LetterTypeError::ExceedLengthError(offset));
        }
        Err(LetterTypeError::InvalidStyleError)
    }
}

impl TypeStyle for MonoSpaceType {
    open spec fn family(&self) -> StyledLetter {
        StyledLetter::MonoSpace
    }

    open spec fn category(&self) -> CharacterType {
        CharacterType::Letter
    }

    fn get_char(&self, offset: usize, style: &LetterStyle, uppercase: bool) -> (r: Result<
        char,
        LetterTypeError,
    >) {
        match *style {
            LetterStyle::Normal => self.normal(offset, uppercase),
            LetterStyle::Italic => self.italic(offset, uppercase),
            LetterStyle::Bold => self.bold(offset, uppercase),
            LetterStyle::BoldItalic => self.bold_italic(offset, uppercase),
        }
    }
}

/// The double-struck letters, which are filed under the bold emphasis.
#[derive(Debug)]
pub struct DoubleStruckType {
    number: usize,
    slots: SlotRange,
}

impl DoubleStruckType {
    /// The number of letters.
    pub closed spec fn length(&self) -> nat {
        self.number as nat
    }

    /// The bases that the value holds.
    pub closed spec fn table(&self) -> SlotRange {
        self.slots
    }

    #[verifier::type_invariant]
    spec fn holds_registry(&self) -> bool {
        &&& self.number == alphabet_len(CharacterType::Letter)
        &&& slot_range(StyledLetter::DoubleStruck, CharacterType::Letter) == Some(self.slots)
    }

    /// The table of the double-struck letters.
    pub fn new() -> (s: Self)
        ensures
            s.length() == alphabet_len(CharacterType::Letter),
            slot_range(StyledLetter::DoubleStruck, CharacterType::Letter) == Some(s.table()),
    {
        Self {
            number: 26,
            slots: SlotRange {
                normal: None,
                bold: Some((0x1D538, 0x1D552)),
                italic: None,
                bold_italic: None,
            },
        }
    }

    /// There is no normal double-struck letter: every offset within the alphabet is refused.
    pub fn normal(&self, offset: usize, uppercase: bool) -> (r: Result<char, LetterTypeError>)
        ensures
            r == slot_char(
                StyledLetter::DoubleStruck,
                CharacterType::Letter,
                LetterStyle::Normal,
                uppercase,
                offset,
            ),
    {
        proof {
            use_type_invariant(self);
        }
        if offset >= self.number {
            return Err(LetterTypeError::ExceedLengthError(offset));
        }
        Err(LetterTypeError::InvalidStyleError)
    }

    /// The offsets of the double-struck capitals that live among the
    /// letterlike symbols, with those symbols: C, H, N, P, Q, R and Z.
    pub fn get_bold_corner_case() -> (r: (Vec<usize>, Vec<char>))
        ensures
            lists_overrides(
                r.0@,
                r.1@,
                StyledLetter::DoubleStruck,
                CharacterType::Letter,
                LetterStyle::Bold,
                true,
            ),
    {
        let indices: Vec<usize> = vec![2, 7, 13, 15, 16, 17, 25];
        let chars: Vec<char> = vec![
            '\u{2102}',
            '\u{210D}',
            '\u{2115}',
            '\u{2119}',
            '\u{211A}',
            '\u{211D}',
            '\u{2124}',
        ];
        proof {
            assert(indices@.contains(2)) by {
                assert(indices@[0] == 2);
            }
            assert(indices@.contains(7)) by {
                assert(indices@[1] == 7);
            }
            assert(indices@.contains(13)) by {
                assert(indices@[2] == 13);
            }
            assert(indices@.contains(15)) by {
                assert(indices@[3] == 15);
            }
            assert(indices@.contains(16)) by {
                assert(indices@[4] == 16);
            }
            assert(indices@.contains(17)) by {
                assert(indices@[5] == 17);
            }
            assert(indices@.contains(25)) by {
                assert(indices@[6] == 25);
            }
        }
        (indices, chars)
    }

    /// The bold double-struck letter at an offset, in the given case.
    pub fn bold(&self, offset: usize, uppercase: bool) -> (r: Result<char, LetterTypeError>)
        ensures
            r == slot_char(
                StyledLetter::DoubleStruck,
                CharacterType::Letter,
                LetterStyle::Bold,
                uppercase,
                offset,
            ),
    {
        proof {
            use_type_invariant(self);
        }
        if offset >= self.number {
            return Err(LetterTypeError::ExceedLengthError(offset));
        }
        if let Some(bases) = self.slots.bold {
            if uppercase {
                let (indices, chars) = Self::get_bold_corner_case();
                if let Some(index) = find_offset(&indices, offset) {
                    return Ok(chars[index]);
                }
            }
            return based_char(bases, uppercase, offset);
        }
        Err(LetterTypeError::InvalidStyleError)
    }

    /// There is no italic double-struck letter: every offset within the alphabet is refused.
    pub fn italic(&self, offset: usize, uppercase: bool) -> (r: Result<char, LetterTypeError>)
        ensures
            r == slot_char(
                StyledLetter::DoubleStruck,
                CharacterType::Letter,
                LetterStyle::Italic,
                uppercase,
                offset,
            ),
    {
        proof {
            use_type_invariant(self);
        }
        if offset >= self.number {
            return Err(LetterTypeError::ExceedLengthError(offset));
        }
        Err(LetterTypeError::InvalidStyleError)
    }

    /// There is no bold italic double-struck letter: every offset within the alphabet is refused.
    pub fn bold_italic(&self, offset: usize, uppercase: bool) -> (r: Result<char, LetterTypeError>)
        ensures
            r == slot_char(
                StyledLetter::DoubleStruck,
                CharacterType::Letter,
                LetterStyle::BoldItalic,
                uppercase,
                offset,
            ),
    {
        proof {
            use_type_invariant(self);
        }
        if offset >= self.number {
            return Err(LetterTypeError::ExceedLengthError(offset));
        }
        Err(LetterTypeError::InvalidStyleError)
    }
}

impl TypeStyle for DoubleStruckType {
    open spec fn family(&self) -> StyledLetter {
        StyledLetter::DoubleStruck
    }

    open spec fn category(&self) -> CharacterType {
        CharacterType::Letter
    }

    fn get_char(&self, offset: usize, style: &LetterStyle, uppercase: bool) -> (r: Result<
        char,
        LetterTypeError,
    >) {
        match *style {
            LetterStyle::Normal => self.normal(offset, uppercase),
            LetterStyle::Italic => self.italic(offset, uppercase),
            LetterStyle::Bold => self.bold(offset, uppercase),
            LetterStyle::BoldItalic => self.bold_italic(offset, uppercase),
        }
    }
}

} // verus!
