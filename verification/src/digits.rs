use vstd::prelude::*;
use crate::kinds::{CharacterType, LetterStyle, LetterTypeError, StyledLetter};
use crate::latin::TypeStyle;
use crate::lookup::{based_char};
use crate::registry::{alphabet_len, slot_char, slot_range, SlotRange};

verus! {
/// The serif digits: those of ASCII and their bold forms.
#[derive(Debug)]
pub struct DigitType {
    number: usize,
    slots: SlotRange,
}

impl DigitType {
    /// The number of digits.
    pub closed spec fn length(&self) -> nat {
        self.number as nat
    }

    /// The bases that the value holds.
    pub closed spec fn table(&self) -> SlotRange {
        self.slots
    }

    #[verifier::type_invariant]
    spec fn holds_registry(&self) -> bool {
        &&& self.number == alphabet_len(CharacterType::Digit)
        &&& slot_range(StyledLetter::Serif, CharacterType::Digit) == Some(self.slots)
    }

    /// The table of the serif digits.
    pub fn new() -> (s: Self)
        ensures
            s.length() == alphabet_len(CharacterType::Digit),
            slot_range(StyledLetter::Serif, CharacterType::Digit) == Some(s.table()),
    {
        Self {
            number: 10,
            slots: SlotRange {
                normal: Some((0x30, 0x30)),
                bold: Some((0x1D7CE, 0x1D7CE)),
                italic: None,
                bold_italic: None,
            },
        }
    }

    /// The normal serif digit at an offset, in the given case.
    pub fn normal(&self, offset: usize, uppercase: bool) -> (r: Result<char, LetterTypeError>)
        ensures
            r == slot_char(
                StyledLetter::Serif,
                CharacterType::Digit,
                LetterStyle::Normal,
                uppercase,
                offset,
            ),
    {
        proof {
            use_type_invariant(self);
        }
        if offset >= self.number {
            return Err(LetterTypeError::ExceedLengthError(offset));
        }
        if let Some(bases) = self.slots.normal {
            return based_char(bases, uppercase, offset);
        }
        Err(LetterTypeError::InvalidStyleError)
    }

    /// The bold serif digit at an offset, in the given case.
    pub fn bold(&self, offset: usize, uppercase: bool) -> (r: Result<char, LetterTypeError>)
        ensures
            r == slot_char(
                StyledLetter::Serif,
                CharacterType::Digit,
                LetterStyle::Bold,
                uppercase,
                offset,
            ),
    {
        proof {
            use_type_invariant(self);
        }
        if offset >= self.number {
            return Err(LetterTypeError::ExceedLengthError(offset));
        }
        if let Some(bases) = self.slots.bold {
            return based_char(bases, uppercase, offset);
        }
        Err(LetterTypeError::InvalidStyleError)
    }

    /// There is no italic serif digit: every offset within the alphabet is refused.
    pub fn italic(&self, offset: usize, uppercase: bool) -> (r: Result<char, LetterTypeError>)
        ensures
            r == slot_char(
                StyledLetter::Serif,
                CharacterType::Digit,
                LetterStyle::Italic,
                uppercase,
                offset,
            ),
    {
        proof {
            use_type_invariant(self);
        }
        if offset >= self.number {
            return Err(LetterTypeError::ExceedLengthError(offset));
        }
        Err(LetterTypeError::InvalidStyleError)
    }

    /// There is no bold italic serif digit: every offset within the alphabet is refused.
    pub fn bold_italic(&self, offset: usize, uppercase: bool) -> (r: Result<char, LetterTypeError>)
        ensures
            r == slot_char(
                StyledLetter::Serif,
                CharacterType::Digit,
                LetterStyle::BoldItalic,
                uppercase,
                offset,
            ),
    {
        proof {
            use_type_invariant(self);
        }
        if offset >= self.number {
            return Err(LetterTypeError::ExceedLengthError(offset));
        }
        Err(LetterTypeError::InvalidStyleError)
    }
}

impl TypeStyle for DigitType {
    open spec fn family(&self) -> StyledLetter {
        StyledLetter::Serif
    }

    open spec fn category(&self) -> CharacterType {
        CharacterType::Digit
    }

    fn get_char(&self, offset: usize, style: &LetterStyle, uppercase: bool) -> (r: Result<
        char,
        LetterTypeError,
    >) {
        match *style {
            LetterStyle::Normal => self.normal(offset, uppercase),
            LetterStyle::Italic => self.italic(offset, uppercase),
            LetterStyle::Bold => self.bold(offset, uppercase),
            LetterStyle::BoldItalic => self.bold_italic(offset, uppercase),
        }
    }
}

/// The double-struck digits.
#[derive(Debug)]
pub struct DigitDoubleStruckType {
    number: usize,
    slots: SlotRange,
}

impl DigitDoubleStruckType {
    /// The number of digits.
    pub closed spec fn length(&self) -> nat {
        self.number as nat
    }

    /// The bases that the value holds.
    pub closed spec fn table(&self) -> SlotRange {
        self.slots
    }

    #[verifier::type_invariant]
    spec fn holds_registry(&self) -> bool {
        &&& self.number == alphabet_len(CharacterType::Digit)
        &&& slot_range(StyledLetter::DoubleStruck, CharacterType::Digit) == Some(self.slots)
    }

    /// The table of the double-struck digits.
    pub fn new() -> (s: Self)
        ensures
            s.length() == alphabet_len(CharacterType::Digit),
            slot_range(StyledLetter::DoubleStruck, CharacterType::Digit) == Some(s.table()),
    {
        Self {
            number: 10,
            slots: SlotRange {
                normal: Some((0x1D7D8, 0x1D7D8)),
                bold: None,
                italic: None,
                bold_italic: None,
            },
        }
    }

    /// The normal double-struck digit at an offset, in the given case.
    pub fn normal(&self, offset: usize, uppercase: bool) -> (r: Result<char, LetterTypeError>)
        ensures
            r == slot_char(
                StyledLetter::DoubleStruck,
                CharacterType::Digit,
                LetterStyle::Normal,
                uppercase,
                offset,
            ),
    {
        proof {
            use_type_invariant(self);
        }
        if offset >= self.number {
            return Err(LetterTypeError::ExceedLengthError(offset));
        }
        if let Some(bases) = self.slots.normal {
            return based_char(bases, uppercase, offset);
        }
        Err(LetterTypeError::InvalidStyleError)
    }

    /// There is no bold double-struck digit: every offset within the alphabet is refused.
    pub fn bold(&self, offset: usize, uppercase: bool) -> (r: Result<char, LetterTypeError>)
        ensures
            r == slot_char(
                StyledLetter::DoubleStruck,
                CharacterType::Digit,
                LetterStyle::Bold,
                uppercase,
                offset,
            ),
    {
        proof {
            use_type_invariant(self);
        }
        if offset >= self.number {
            return Err(LetterTypeError::ExceedLengthError(offset));
        }
        Err(LetterTypeError::InvalidStyleError)
    }

    /// There is no italic double-struck digit: every offset within the alphabet is refused.
    pub fn italic(&self, offset: usize, uppercase: bool) -> (r: Result<char, LetterTypeError>)
        ensures
            r == slot_char(
                StyledLetter::DoubleStruck,
                CharacterType::Digit,
                LetterStyle::Italic,
                uppercase,
                offset,
            ),
    {
        proof {
            use_type_invariant(self);
        }
        if offset >= self.number {
            return Err(LetterTypeError::ExceedLengthError(offset));
        }
        Err(LetterTypeError::InvalidStyleError)
    }

    /// There is no bold italic double-struck digit: every offset within the alphabet is refused.
    pub fn bold_italic(&self, offset: usize, uppercase: bool) -> (r: Result<char, LetterTypeError>)
        ensures
            r == slot_char(
                StyledLetter::DoubleStruck,
                CharacterType::Digit,
                LetterStyle::BoldItalic,
                uppercase,
                offset,
            ),
    {
        proof {
            use_type_invariant(self);
        }
        if offset >= self.number {
            return Err(LetterTypeError::ExceedLengthError(offset));
        }
        Err(LetterTypeError::InvalidStyleError)
    }
}

impl TypeStyle for DigitDoubleStruckType {
    open spec fn family(&self) -> StyledLetter {
        StyledLetter::DoubleStruck
    }

    open spec fn category(&self) -> CharacterType {
        CharacterType::Digit
    }

    fn get_char(&self, offset: usize, style: &LetterStyle, uppercase: bool) -> (r: Result<
        char,
        LetterTypeError,
    >) {
        match *style {
            LetterStyle::Normal => self.normal(offset, uppercase),
            LetterStyle::Italic => self.italic(offset, uppercase),
            LetterStyle::Bold => self.bold(offset, uppercase),
            LetterStyle::BoldItalic => self.bold_italic(offset, uppercase),
        }
    }
}

/// The sans-serif digits, normal and bold.
#[derive(Debug)]
pub struct DigitSansSerifType {
    number: usize,
    slots: SlotRange,
}

impl DigitSansSerifType {
    /// The number of digits.
    pub closed spec fn length(&self) -> nat {
        self.number as nat
    }

    /// The bases that the value holds.
    pub closed spec fn table(&self) -> SlotRange {
        self.slots
    }

    #[verifier::type_invariant]
    spec fn holds_registry(&self) -> bool {
        &&& self.number == alphabet_len(CharacterType::Digit)
        &&& slot_range(StyledLetter::SansSerif, CharacterType::Digit) == Some(self.slots)
    }

    /// The table of the sans-serif digits.
    pub fn new() -> (s: Self)
        ensures
            s.length() == alphabet_len(CharacterType::Digit),
            slot_range(StyledLetter::SansSerif, CharacterType::Digit) == Some(s.table()),
    {
        Self {
            number: 10,
            slots: SlotRange {
                normal: Some((0x1D7E2, 0x1D7E2)),
                bold: Some((0x1D7EC, 0x1D7EC)),
                italic: None,
                bold_italic: None,
            },
        }
    }

    /// The normal sans-serif digit at an offset, in the given case.
    pub fn normal(&self, offset: usize, uppercase: bool) -> (r: Result<char, LetterTypeError>)
        ensures
            r == slot_char(
                StyledLetter::SansSerif,
                CharacterType::Digit,
                LetterStyle::Normal,
                uppercase,
                offset,
            ),
    {
        proof {
            use_type_invariant(self);
        }
        if offset >= self.number {
            return Err(LetterTypeError::ExceedLengthError(offset));
        }
        if let Some(bases) = self.slots.normal {
            return based_char(bases, uppercase, offset);
        }
        Err(LetterTypeError::InvalidStyleError)
    }

    /// The bold sans-serif digit at an offset, in the given case.
    pub fn bold(&self, offset: usize, uppercase: bool) -> (r: Result<char, LetterTypeError>)
        ensures
            r == slot_char(
                StyledLetter::SansSerif,
                CharacterType::Digit,
                LetterStyle::Bold,
                uppercase,
                offset,
            ),
    {
        proof {
            use_type_invariant(self);
        }
        if offset >= self.number {
            return Err(LetterTypeError::ExceedLengthError(offset));
        }
        if let Some(bases) = self.slots.bold {
            return based_char(bases, uppercase, offset);
        }
        Err(LetterTypeError::InvalidStyleError)
    }

    /// There is no italic sans-serif digit: every offset within the alphabet is refused.
    pub fn italic(&self, offset: usize, uppercase: bool) -> (r: Result<char, LetterTypeError>)
        ensures
            r == slot_char(
                StyledLetter::SansSerif,
                CharacterType::Digit,
                LetterStyle::Italic,
                uppercase,
                offset,
            ),
    {
        proof {
            use_type_invariant(self);
        }
        if offset >= self.number {
            return Err(LetterTypeError::ExceedLengthError(offset));
        }
        Err(LetterTypeError::InvalidStyleError)
    }

    /// There is no bold italic sans-serif digit: every offset within the alphabet is refused.
    pub fn bold_italic(&self, offset: usize, uppercase: bool) -> (r: Result<char, LetterTypeError>)
        ensures
            r == slot_char(
                StyledLetter::SansSerif,
                CharacterType::Digit,
                LetterStyle::BoldItalic,
                uppercase,
                offset,
            ),
    {
        proof {
            use_type_invariant(self);
        }
        if offset >= self.number {
            return Err(LetterTypeError::ExceedLengthError(offset));
        }
        Err(LetterTypeError::InvalidStyleError)
    }
}

impl TypeStyle for DigitSansSerifType {
    open spec fn family(&self) -> StyledLetter {
        StyledLetter::SansSerif
    }

    open spec fn category(&self) -> CharacterType {
        CharacterType::Digit
    }

    fn get_char(&self, offset: usize, style: &LetterStyle, uppercase: bool) -> (r: Result<
        char,
        LetterTypeError,
    >) {
        match *style {
            LetterStyle::Normal => self.normal(offset, uppercase),
            LetterStyle::Italic => self.italic(offset, uppercase),
            LetterStyle::Bold => self.bold(offset, uppercase),
            LetterStyle::BoldItalic => self.bold_italic(offset, uppercase),
        }
    }
}

/// The monospace digits.
#[derive(Debug)]
pub struct DigitMonoSpaceType {
    number: usize,
    slots: SlotRange,
}

impl DigitMonoSpaceType {
    /// The number of digits.
    pub closed spec fn length(&self) -> nat {
        self.number as nat
    }

    /// The bases that the value holds.
    pub closed spec fn table(&self) -> SlotRange {
        self.slots
    }

    #[verifier::type_invariant]
    spec fn holds_registry(&self) -> bool {
        &&& self.number == alphabet_len(CharacterType::Digit)
        &&& slot_range(StyledLetter::MonoSpace, CharacterType::Digit) == Some(self.slots)
    }

    /// The table of the monospace digits.
    pub fn new() -> (s: Self)
        ensures
            s.length() == alphabet_len(CharacterType::Digit),
            slot_range(StyledLetter::MonoSpace, CharacterType::Digit) == Some(s.table()),
    {
        Self {
            number: 10,
            slots: SlotRange {
                normal: Some((0x1D7F6, 0x1D7F6)),
                bold: None,
                italic: None,
                bold_italic: None,
            },
        }
    }

    /// The normal monospace digit at an offset, in the given case.
    pub fn normal(&self, offset: usize, uppercase: bool) -> (r: Result<char, LetterTypeError>)
        ensures
            r == slot_char(
                StyledLetter::MonoSpace,
                CharacterType::Digit,
                LetterStyle::Normal,
                uppercase,
                offset,
            ),
    {
        proof {
            use_type_invariant(self);
        }
        if offset >= self.number {
            return Err(LetterTypeError::ExceedLengthError(offset));
        }
        if let Some(bases) = self.slots.normal {
            return based_char(bases, uppercase, offset);
        }
        Err(LetterTypeError::InvalidStyleError)
    }

    /// There is no bold monospace digit: every offset within the alphabet is refused.
    pub fn bold(&self, offset: usize, uppercase: bool) -> (r: Result<char, LetterTypeError>)
        ensures
            r == slot_char(
                StyledLetter::MonoSpace,
                CharacterType::Digit,
                LetterStyle::Bold,
                uppercase,
                offset,
            ),
    {
        proof {
            use_type_invariant(self);
        }
        if offset >= self.number {
            return Err(LetterTypeError::ExceedLengthError(offset));
        }
        Err(LetterTypeError::InvalidStyleError)
    }

    /// There is no italic monospace digit: every offset within the alphabet is refused.
    pub fn italic(&self, offset: usize, uppercase: bool) -> (r: Result<char, LetterTypeError>)
        ensures
            r == slot_char(
                StyledLetter::MonoSpace,
                CharacterType::Digit,
                LetterStyle::Italic,
                uppercase,
                offset,
            ),
    {
        proof {
            use_type_invariant(self);
        }
        if offset >= self.number {
            return Err(LetterTypeError::ExceedLengthError(offset));
        }
        Err(LetterTypeError::InvalidStyleError)
    }

    /// There is no bold italic monospace digit: every offset within the alphabet is refused.
    pub fn bold_italic(&self, offset: usize, uppercase: bool) -> (r: Result<char, LetterTypeError>)
        ensures
            r == slot_char(
                StyledLetter::MonoSpace,
                CharacterType::Digit,
                LetterStyle::BoldItalic,
                uppercase,
                offset,
            ),
    {
        proof {
            use_type_invariant(self);
        }
        if offset >= self.number {
            return Err(LetterTypeError::ExceedLengthError(offset));
        }
        Err(LetterTypeError::InvalidStyleError)
    }
}

impl TypeStyle for DigitMonoSpaceType {
    open spec fn family(&self) -> StyledLetter {
        StyledLetter::MonoSpace
    }

    open spec fn category(&self) -> CharacterType {
        CharacterType::Digit
    }

    fn get_char(&self, offset: usize, style: &LetterStyle, uppercase: bool) -> (r: Result<
        char,
        LetterTypeError,
    >) {
        match *style {
            LetterStyle::Normal => self.normal(offset, uppercase),
            LetterStyle::Italic => self.italic(offset, uppercase),
            LetterStyle::Bold => self.bold(offset, uppercase),
            LetterStyle::BoldItalic => self.bold_italic(offset, uppercase),
        }
    }
}

} // verus!
