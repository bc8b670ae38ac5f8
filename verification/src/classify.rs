use vstd::prelude::*;
use crate::digits::{DigitDoubleStruckType, DigitMonoSpaceType, DigitSansSerifType, DigitType};
use crate::greek::{GreekSansSerifType, GreekType};
use crate::kinds::{CharacterType, LetterStyle, LetterTypeError, StyledLetter};
use crate::latin::{
    DoubleStruckType,
    FrakturType,
    MonoSpaceType,
    SansSerifType,
    ScriptType,
    SerifType,
    TypeStyle,
};
use crate::laws::{lemma_override_tables_agree, lemma_reading_is_valid, lemma_run_is_read};
use crate::lookup::{find_char, lists_overrides};
use crate::registry::{
    alphabet_len,
    alphabet_length,
    base_of,
    encoded,
    override_char,
    range_len,
    slot_for,
};

verus! {

/// What a character stands for: the place of a letter or digit in its
/// alphabet, its case, and the typeface and emphasis in which it is written.
#[derive(Debug, Clone, Copy, PartialEq, Eq)]
pub struct LetterInfo {
    pub offset: usize,
    pub uppercase: bool,
    pub letter_type: StyledLetter,
    pub letter_style: LetterStyle,
    pub character_type: CharacterType,
}

/// A character as the classifier reads it: a letter or digit of a known
/// style, or any other character, which is kept as it is.
#[derive(Debug, Clone, Copy, PartialEq, Eq)]
pub enum CharacterInfo {
    Letter(LetterInfo),
    Other(char),
}

/// The reading with the given parts.
pub open spec fn letter_info(
    offset: usize,
    uppercase: bool,
    letter_type: StyledLetter,
    letter_style: LetterStyle,
    character_type: CharacterType,
) -> LetterInfo {
    LetterInfo { offset, uppercase, letter_type, letter_style, character_type }
}

/// The first of two readings that exists.
pub open spec fn first_of(a: Option<LetterInfo>, b: Option<LetterInfo>) -> Option<LetterInfo> {
    if a is Some {
        a
    } else {
        b
    }
}

/// Whether a code point lies in the run of one case of one style: the code
/// points that follow the base of that case, as many as are read there.
pub open spec fn in_run(
    code: int,
    family: StyledLetter,
    category: CharacterType,
    emphasis: LetterStyle,
    uppercase: bool,
) -> bool {
    match slot_for(family, category, emphasis) {
        Some(bases) => base_of(bases, uppercase) <= code < base_of(bases, uppercase) + range_len(
            category,
            uppercase,
        ),
        None => false,
    }
}

/// Whether a code point lies in one of the two runs of a style.
pub open spec fn in_slot(
    code: int,
    family: StyledLetter,
    category: CharacterType,
    emphasis: LetterStyle,
) -> bool {
    in_run(code, family, category, emphasis, true) || in_run(
        code,
        family,
        category,
        emphasis,
        false,
    )
}

/// Whether a code point lies in a run of one typeface.
pub open spec fn in_table(code: int, family: StyledLetter, category: CharacterType) -> bool {
    ||| in_slot(code, family, category, LetterStyle::Normal)
    ||| in_slot(code, family, category, LetterStyle::Bold)
    ||| in_slot(code, family, category, LetterStyle::Italic)
    ||| in_slot(code, family, category, LetterStyle::BoldItalic)
}

/// Whether a code point lies in a run of one category.
pub open spec fn in_category(code: int, category: CharacterType) -> bool {
    ||| in_table(code, StyledLetter::Serif, category)
    ||| in_table(code, StyledLetter::SansSerif, category)
    ||| in_table(code, StyledLetter::Script, category)
    ||| in_table(code, StyledLetter::Fraktur, category)
    ||| in_table(code, StyledLetter::MonoSpace, category)
    ||| in_table(code, StyledLetter::DoubleStruck, category)
}

/// The typeface in whose runs a code point of a category lies.
pub open spec fn run_family(code: int, category: CharacterType) -> StyledLetter {
    if in_table(code, StyledLetter::Serif, category) {
        StyledLetter::Serif
    } else if in_table(code, StyledLetter::SansSerif, category) {
        StyledLetter::SansSerif
    } else if in_table(code, StyledLetter::Script, category) {
        StyledLetter::Script
    } else if in_table(code, StyledLetter::Fraktur, category) {
        StyledLetter::Fraktur
    } else if in_table(code, StyledLetter::MonoSpace, category) {
        StyledLetter::MonoSpace
    } else {
        StyledLetter::DoubleStruck
    }
}

/// The emphasis in whose runs a code point of a table lies.
pub open spec fn run_emphasis(
    code: int,
    family: StyledLetter,
    category: CharacterType,
) -> LetterStyle {
    if in_slot(code, family, category, LetterStyle::Normal) {
        LetterStyle::Normal
    } else if in_slot(code, family, category, LetterStyle::Bold) {
        LetterStyle::Bold
    } else if in_slot(code, family, category, LetterStyle::Italic) {
        LetterStyle::Italic
    } else {
        LetterStyle::BoldItalic
    }
}

/// The reading of a code point that lies in a run of the category: the
/// typeface, emphasis and case of that run, and the distance from its base.
pub open spec fn run_reading(code: int, category: CharacterType) -> LetterInfo {
    let family = run_family(code, category);
    let emphasis = run_emphasis(code, family, category);
    let uppercase = in_run(code, family, category, emphasis, true);
    let base = base_of(slot_for(family, category, emphasis)->0, uppercase);
    letter_info((code - base) as usize, uppercase, family, emphasis, category)
}

/// The reading of a code point as a member of one category, if it lies in
/// one of its runs.
pub open spec fn category_info(code: int, category: CharacterType) -> Option<LetterInfo> {
    if in_category(code, category) {
        Some(run_reading(code, category))
    } else {
        None
    }
}

/// The reading of a character that lies in one of the runs of the registry.
pub open spec fn range_info(ch: char) -> Option<LetterInfo> {
    first_of(
        category_info(ch as int, CharacterType::Letter),
        first_of(
            category_info(ch as int, CharacterType::Greek),
            category_info(ch as int, CharacterType::Digit),
        ),
    )
}

/// Whether a reading describes a code point as a member of one run of the
/// category: the code point lies in the run of the reading's style and case,
/// at the reading's offset from its base.
pub open spec fn reads_run(code: int, category: CharacterType, info: LetterInfo) -> bool {
    &&& info.character_type == category
    &&& in_run(code, info.letter_type, category, info.letter_style, info.uppercase)
    &&& info.offset == code - base_of(
        slot_for(info.letter_type, category, info.letter_style)->0,
        info.uppercase,
    )
}

/// Whether a reading describes a character by the registry: the character
/// lies in the run of the reading's style and case at the reading's offset,
/// or it is the override that stands at that offset of the alphabet.
pub open spec fn describes(info: LetterInfo, ch: char) -> bool {
    ||| reads_run(ch as int, info.character_type, info)
    ||| {
        &&& info.offset < alphabet_len(info.character_type)
        &&& override_char(
            info.letter_type,
            info.character_type,
            info.letter_style,
            info.uppercase,
            info.offset,
        ) == Some(ch)
    }
}

/// The reading of a character that is an override: the table of
/// `override_char`, looked up by code point, as far as its offsets lie
/// within the alphabet.
pub open spec fn override_info(ch: char) -> Option<LetterInfo> {
    if ch == '\u{3F4}' {
        Some(letter_info(17, true, StyledLetter::Serif, LetterStyle::Normal, CharacterType::Greek))
    } else if ch == '\u{2102}' {
        Some(letter_info(2, true, StyledLetter::DoubleStruck, LetterStyle::Bold, CharacterType::Letter))
    } else if ch == '\u{210A}' {
        Some(letter_info(6, false, StyledLetter::Script, LetterStyle::Normal, CharacterType::Letter))
    } else if ch == '\u{210B}' {
        Some(letter_info(7, true, StyledLetter::Script, LetterStyle::Normal, CharacterType::Letter))
    } else if ch == '\u{210C}' {
        Some(letter_info(7, true, StyledLetter::Fraktur, LetterStyle::Normal, CharacterType::Letter))
    } else if ch == '\u{210D}' {
        Some(letter_info(7, true, StyledLetter::DoubleStruck, LetterStyle::Bold, CharacterType::Letter))
    } else if ch == '\u{210E}' {
        Some(letter_info(7, false, StyledLetter::Serif, LetterStyle::Italic, CharacterType::Letter))
    } else if ch == '\u{2110}' {
        Some(letter_info(8, true, StyledLetter::Script, LetterStyle::Normal, CharacterType::Letter))
    } else if ch == '\u{2111}' {
        Some(letter_info(8, true, StyledLetter::Fraktur, LetterStyle::Normal, CharacterType::Letter))
    } else if ch == '\u{2112}' {
        Some(letter_info(11, true, StyledLetter::Script, LetterStyle::Normal, CharacterType::Letter))
    } else if ch == '\u{2115}' {
        Some(letter_info(13, true, StyledLetter::DoubleStruck, LetterStyle::Bold, CharacterType::Letter))
    } else if ch == '\u{2119}' {
        Some(letter_info(15, true, StyledLetter::DoubleStruck, LetterStyle::Bold, CharacterType::Letter))
    } else if ch == '\u{211A}' {
        Some(letter_info(16, true, StyledLetter::DoubleStruck, LetterStyle::Bold, CharacterType::Letter))
    } else if ch == '\u{211B}' {
        Some(letter_info(17, true, StyledLetter::Script, LetterStyle::Normal, CharacterType::Letter))
    } else if ch == '\u{211C}' {
        Some(letter_info(17, true, StyledLetter::Fraktur, LetterStyle::Normal, CharacterType::Letter))
    } else if ch == '\u{211D}' {
        Some(letter_info(17, true, StyledLetter::DoubleStruck, LetterStyle::Bold, CharacterType::Letter))
    } else if ch == '\u{2124}' {
        Some(letter_info(25, true, StyledLetter::DoubleStruck, LetterStyle::Bold, CharacterType::Letter))
    } else if ch == '\u{2128}' {
        Some(letter_info(25, true, StyledLetter::Fraktur, LetterStyle::Normal, CharacterType::Letter))
    } else if ch == '\u{212C}' {
        Some(letter_info(1, true, StyledLetter::Script, LetterStyle::Normal, CharacterType::Letter))
    } else if ch == '\u{212D}' {
        Some(letter_info(2, true, StyledLetter::Fraktur, LetterStyle::Normal, CharacterType::Letter))
    } else if ch == '\u{212F}' {
        Some(letter_info(4, false, StyledLetter::Script, LetterStyle::Normal, CharacterType::Letter))
    } else if ch == '\u{2130}' {
        Some(letter_info(4, true, StyledLetter::Script, LetterStyle::Normal, CharacterType::Letter))
    } else if ch == '\u{2131}' {
        Some(letter_info(5, true, StyledLetter::Script, LetterStyle::Normal, CharacterType::Letter))
    } else if ch == '\u{2133}' {
        Some(letter_info(12, true, StyledLetter::Script, LetterStyle::Normal, CharacterType::Letter))
    } else if ch == '\u{2134}' {
        Some(letter_info(14, false, StyledLetter::Script, LetterStyle::Normal, CharacterType::Letter))
    } else if ch == '\u{2202}' {
        Some(letter_info(25, false, StyledLetter::Serif, LetterStyle::Normal, CharacterType::Greek))
    } else if ch == '\u{2207}' {
        Some(letter_info(25, true, StyledLetter::Serif, LetterStyle::Normal, CharacterType::Greek))
    } else {
        None
    }
}

/// The reading of a character, or `None` for a character that is no letter
/// or digit of any style known here.
pub open spec fn classified(ch: char) -> Option<LetterInfo> {
    first_of(range_info(ch), override_info(ch))
}

/// What the classifier returns for a character.
pub open spec fn character_info(ch: char) -> CharacterInfo {
    match classified(ch) {
        Some(info) => CharacterInfo::Letter(info),
        None => CharacterInfo::Other(ch),
    }
}

/// The result of restyling a character: a letter or digit is written anew
/// in the requested typeface and emphasis, any other character stays.
pub open spec fn converted(ch: char, family: StyledLetter, emphasis: LetterStyle) -> Result<
    char,
    LetterTypeError,
> {
    match classified(ch) {
        Some(info) => encoded(info.character_type, info.uppercase, info.offset, family, emphasis),
        None => Ok(ch),
    }
}

/// Reads a code point that lies in a run of the Latin letters.
fn letter_range_info(val: u32) -> (r: Option<LetterInfo>)
    ensures
        match r {
            Some(info) => reads_run(val as int, CharacterType::Letter, info),
            None => !in_category(val as int, CharacterType::Letter),
        },
{
    if 0x41 <= val && val <= 0x5A {
        Some(
            LetterInfo::new(
                (val - 0x41) as usize,
                true,
                StyledLetter::Serif,
                LetterStyle::Normal,
                CharacterType::Letter,
            ),
        )
    } else if 0x61 <= val && val <= 0x7A {
        Some(
            LetterInfo::new(
                (val - 0x61) as usize,
                false,
                StyledLetter::Serif,
                LetterStyle::Normal,
                CharacterType::Letter,
            ),
        )
    } else if 0x1D400 <= val && val <= 0x1D419 {
        Some(
            LetterInfo::new(
                (val - 0x1D400) as usize,
                true,
                StyledLetter::Serif,
                LetterStyle::Bold,
                CharacterType::Letter,
            ),
        )
    } else if 0x1D41A <= val && val <= 0x1D433 {
        Some(
            LetterInfo::new(
                (val - 0x1D41A) as usize,
                false,
                StyledLetter::Serif,
                LetterStyle::Bold,
                CharacterType::Letter,
            ),
        )
    } else if 0x1D434 <= val && val <= 0x1D44D {
        Some(
            LetterInfo::new(
                (val - 0x1D434) as usize,
                true,
                StyledLetter::Serif,
                LetterStyle::Italic,
                CharacterType::Letter,
            ),
        )
    } else if 0x1D44E <= val && val <= 0x1D467 {
        Some(
            LetterInfo::new(
                (val - 0x1D44E) as usize,
                false,
                StyledLetter::Serif,
                LetterStyle::Italic,
                CharacterType::Letter,
            ),
        )
    } else if 0x1D468 <= val && val <= 0x1D481 {
        Some(
            LetterInfo::new(
                (val - 0x1D468) as usize,
                true,
                StyledLetter::Serif,
                LetterStyle::BoldItalic,
                CharacterType::Letter,
            ),
        )
    } else if 0x1D482 <= val && val <= 0x1D49B {
        Some(
            LetterInfo::new(
                (val - 0x1D482) as usize,
                false,
                StyledLetter::Serif,
                LetterStyle::BoldItalic,
                CharacterType::Letter,
            ),
        )
    } else if 0x1D49C <= val && val <= 0x1D4B5 {
        Some(
            LetterInfo::new(
                (val - 0x1D49C) as usize,
                true,
                StyledLetter::Script,
                LetterStyle::Normal,
                CharacterType::Letter,
            ),
        )
    } else if 0x1D4B6 <= val && val <= 0x1D4CF {
        Some(
            LetterInfo::new(
                (val - 0x1D4B6) as usize,
                false,
                StyledLetter::Script,
                LetterStyle::Normal,
                CharacterType::Letter,
            ),
        )
    } else if 0x1D4D0 <= val && val <= 0x1D4E9 {
        Some(
            LetterInfo::new(
                (val - 0x1D4D0) as usize,
                true,
                StyledLetter::Script,
                LetterStyle::Bold,
                CharacterType::Letter,
            ),
        )
    } else if 0x1D4EA <= val && val <= 0x1D503 {
        Some(
            LetterInfo::new(
                (val - 0x1D4EA) as usize,
                false,
                StyledLetter::Script,
                LetterStyle::Bold,
                CharacterType::Letter,
            ),
        )
    } else if 0x1D504 <= val && val <= 0x1D51D {
        Some(
            LetterInfo::new(
                (val - 0x1D504) as usize,
                true,
                StyledLetter::Fraktur,
                LetterStyle::Normal,
                CharacterType::Letter,
            ),
        )
    } else if 0x1D51E <= val && val <= 0x1D537 {
        Some(
            LetterInfo::new(
                (val - 0x1D51E) as usize,
                false,
                StyledLetter::Fraktur,
                LetterStyle::Normal,
                CharacterType::Letter,
            ),
        )
    } else if 0x1D538 <= val && val <= 0x1D551 {
        Some(
            LetterInfo::new(
                (val - 0x1D538) as usize,
                true,
                StyledLetter::DoubleStruck,
                LetterStyle::Bold,
                CharacterType::Letter,
            ),
        )
    } else if 0x1D552 <= val && val <= 0x1D56B {
        Some(
            LetterInfo::new(
                (val - 0x1D552) as usize,
                false,
                StyledLetter::DoubleStruck,
                LetterStyle::Bold,
                CharacterType::Letter,
            ),
        )
    } else if 0x1D56C <= val && val <= 0x1D585 {
        Some(
            LetterInfo::new(
                (val - 0x1D56C) as usize,
                true,
                StyledLetter::Fraktur,
                LetterStyle::Bold,
                CharacterType::Letter,
            ),
        )
    } else if 0x1D586 <= val && val <= 0x1D59F {
        Some(
            LetterInfo::new(
                (val - 0x1D586) as usize,
                false,
                StyledLetter::Fraktur,
                LetterStyle::Bold,
                CharacterType::Letter,
            ),
        )
    } else if 0x1D5A0 <= val && val <= 0x1D5B9 {
        Some(
            LetterInfo::new(
                (val - 0x1D5A0) as usize,
                true,
                StyledLetter::SansSerif,
                LetterStyle::Normal,
                CharacterType::Letter,
            ),
        )
    } else if 0x1D5BA <= val && val <= 0x1D5D3 {
        Some(
            LetterInfo::new(
                (val - 0x1D5BA) as usize,
                false,
                StyledLetter::SansSerif,
                LetterStyle::Normal,
                CharacterType::Letter,
            ),
        )
    } else if 0x1D5D4 <= val && val <= 0x1D5ED {
        Some(
            LetterInfo::new(
                (val - 0x1D5D4) as usize,
                true,
                StyledLetter::SansSerif,
                LetterStyle::Bold,
                CharacterType::Letter,
            ),
        )
    } else if 0x1D5EE <= val && val <= 0x1D607 {
        Some(
            LetterInfo::new(
                (val - 0x1D5EE) as usize,
                false,
                StyledLetter::SansSerif,
                LetterStyle::Bold,
                CharacterType::Letter,
            ),
        )
    } else if 0x1D608 <= val && val <= 0x1D621 {
        Some(
            LetterInfo::new(
                (val - 0x1D608) as usize,
                true,
                StyledLetter::SansSerif,
                LetterStyle::Italic,
                CharacterType::Letter,
            ),
        )
    } else if 0x1D622 <= val && val <= 0x1D63B {
        Some(
            LetterInfo::new(
                (val - 0x1D622) as usize,
                false,
                StyledLetter::SansSerif,
                LetterStyle::Italic,
                CharacterType::Letter,
            ),
        )
    } else if 0x1D63C <= val && val <= 0x1D655 {
        Some(
            LetterInfo::new(
                (val - 0x1D63C) as usize,
                true,
                StyledLetter::SansSerif,
                LetterStyle::BoldItalic,
                CharacterType::Letter,
            ),
        )
    } else if 0x1D656 <= val && val <= 0x1D66F {
        Some(
            LetterInfo::new(
                (val - 0x1D656) as usize,
                false,
                StyledLetter::SansSerif,
                LetterStyle::BoldItalic,
                CharacterType::Letter,
            ),
        )
    } else if 0x1D670 <= val && val <= 0x1D689 {
        Some(
            LetterInfo::new(
                (val - 0x1D670) as usize,
                true,
                StyledLetter::MonoSpace,
                LetterStyle::Normal,
                CharacterType::Letter,
            ),
        )
    } else if 0x1D68A <= val && val <= 0x1D6A3 {
        Some(
            LetterInfo::new(
                (val - 0x1D68A) as usize,
                false,
                StyledLetter::MonoSpace,
                LetterStyle::Normal,
                CharacterType::Letter,
            ),
        )
    } else {
        None
    }
}

/// Reads a code point that lies in a run of the Greek letters.
fn greek_range_info(val: u32) -> (r: Option<LetterInfo>)
    ensures
        match r {
            Some(info) => reads_run(val as int, CharacterType::Greek, info),
            None => !in_category(val as int, CharacterType::Greek),
        },
{
    if 0x391 <= val && val <= 0x3AA {
        Some(
            LetterInfo::new(
                (val - 0x391) as usize,
                true,
                StyledLetter::Serif,
                LetterStyle::Normal,
                CharacterType::Greek,
            ),
        )
    } else if 0x3B1 <= val && val <= 0x3CA {
        Some(
            LetterInfo::new(
                (val - 0x3B1) as usize,
                false,
                StyledLetter::Serif,
                LetterStyle::Normal,
                CharacterType::Greek,
            ),
        )
    } else if 0x1D6A8 <= val && val <= 0x1D6C1 {
        Some(
            LetterInfo::new(
                (val - 0x1D6A8) as usize,
                true,
                StyledLetter::Serif,
                LetterStyle::Bold,
                CharacterType::Greek,
            ),
        )
    } else if 0x1D6C2 <= val && val <= 0x1D6DB {
        Some(
            LetterInfo::new(
                (val - 0x1D6C2) as usize,
                false,
                StyledLetter::Serif,
                LetterStyle::Bold,
                CharacterType::Greek,
            ),
        )
    } else if 0x1D6E2 <= val && val <= 0x1D6FB {
        Some(
            LetterInfo::new(
                (val - 0x1D6E2) as usize,
                true,
                StyledLetter::Serif,
                LetterStyle::Italic,
                CharacterType::Greek,
            ),
        )
    } else if 0x1D6FC <= val && val <= 0x1D715 {
        Some(
            LetterInfo::new(
                (val - 0x1D6FC) as usize,
                false,
                StyledLetter::Serif,
                LetterStyle::Italic,
                CharacterType::Greek,
            ),
        )
    } else if 0x1D71C <= val && val <= 0x1D735 {
        Some(
            LetterInfo::new(
                (val - 0x1D71C) as usize,
                true,
                StyledLetter::Serif,
                LetterStyle::BoldItalic,
                CharacterType::Greek,
            ),
        )
    } else if 0x1D736 <= val && val <= 0x1D74F {
        Some(
            LetterInfo::new(
                (val - 0x1D736) as usize,
                false,
                StyledLetter::Serif,
                LetterStyle::BoldItalic,
                CharacterType::Greek,
            ),
        )
    } else if 0x1D756 <= val && val <= 0x1D76F {
        Some(
            LetterInfo::new(
                (val - 0x1D756) as usize,
                true,
                StyledLetter::SansSerif,
                LetterStyle::Bold,
                CharacterType::Greek,
            ),
        )
    } else if 0x1D770 <= val && val <= 0x1D789 {
        Some(
            LetterInfo::new(
                (val - 0x1D770) as usize,
                false,
                StyledLetter::SansSerif,
                LetterStyle::Bold,
                CharacterType::Greek,
            ),
        )
    } else if 0x1D790 <= val && val <= 0x1D7A9 {
        Some(
            LetterInfo::new(
                (val - 0x1D790) as usize,
                true,
                StyledLetter::SansSerif,
                LetterStyle::BoldItalic,
                CharacterType::Greek,
            ),
        )
    } else if 0x1D7AA <= val && val <= 0x1D7C3 {
        Some(
            LetterInfo::new(
                (val - 0x1D7AA) as usize,
                false,
                StyledLetter::SansSerif,
                LetterStyle::BoldItalic,
                CharacterType::Greek,
            ),
        )
    } else {
        None
    }
}

/// Reads a code point that lies in a run of the digits.
fn digit_range_info(val: u32) -> (r: Option<LetterInfo>)
    ensures
        match r {
            Some(info) => reads_run(val as int, CharacterType::Digit, info),
            None => !in_category(val as int, CharacterType::Digit),
        },
{
    if 0x30 <= val && val <= 0x39 {
        Some(
            LetterInfo::new(
                (val - 0x30) as usize,
                false,
                StyledLetter::Serif,
                LetterStyle::Normal,
                CharacterType::Digit,
            ),
        )
    } else if 0x1D7CE <= val && val <= 0x1D7D7 {
        Some(
            LetterInfo::new(
                (val - 0x1D7CE) as usize,
                false,
                StyledLetter::Serif,
                LetterStyle::Bold,
                CharacterType::Digit,
            ),
        )
    } else if 0x1D7D8 <= val && val <= 0x1D7E1 {
        Some(
            LetterInfo::new(
                (val - 0x1D7D8) as usize,
                false,
                StyledLetter::DoubleStruck,
                LetterStyle::Normal,
                CharacterType::Digit,
            ),
        )
    } else if 0x1D7E2 <= val && val <= 0x1D7EB {
        Some(
            LetterInfo::new(
                (val - 0x1D7E2) as usize,
                false,
                StyledLetter::SansSerif,
                LetterStyle::Normal,
                CharacterType::Digit,
            ),
        )
    } else if 0x1D7EC <= val && val <= 0x1D7F5 {
        Some(
            LetterInfo::new(
                (val - 0x1D7EC) as usize,
                false,
                StyledLetter::SansSerif,
                LetterStyle::Bold,
                CharacterType::Digit,
            ),
        )
    } else if 0x1D7F6 <= val && val <= 0x1D7FF {
        Some(
            LetterInfo::new(
                (val - 0x1D7F6) as usize,
                false,
                StyledLetter::MonoSpace,
                LetterStyle::Normal,
                CharacterType::Digit,
            ),
        )
    } else {
        None
    }
}

/// Looks a character up among the overrides of one style and case that
/// stand within the alphabet.
fn table_info(
    indices: &Vec<usize>,
    chars: &Vec<char>,
    ch: char,
    uppercase: bool,
    letter_type: StyledLetter,
    letter_style: LetterStyle,
    character_type: CharacterType,
) -> (r: Option<LetterInfo>)
    requires
        lists_overrides(indices@, chars@, letter_type, character_type, letter_style, uppercase),
    ensures
        match r {
            Some(info) => {
                &&& info == letter_info(
                    info.offset,
                    uppercase,
                    letter_type,
                    letter_style,
                    character_type,
                )
                &&& info.offset < alphabet_len(character_type)
                &&& override_char(
                    letter_type,
                    character_type,
                    letter_style,
                    uppercase,
                    info.offset,
                ) == Some(ch)
            },
            None => forall|offset: usize|
                offset < alphabet_len(character_type) ==> #[trigger] override_char(
                    letter_type,
                    character_type,
                    letter_style,
                    uppercase,
                    offset,
                ) != Some(ch),
        },
{
    let found = find_char(chars, ch);
    proof {
        assert forall|offset: usize|
            #[trigger] override_char(letter_type, character_type, letter_style, uppercase, offset)
                == Some(ch) implies found is Some && indices@[found->0 as int] == offset by {
            let i = choose|i: int| 0 <= i < indices@.len() && indices@[i] == offset;
            assert(chars@[i] == ch);
            let k = found->0 as int;
            assert(chars@[k] == ch);
            if i < k {
                assert(indices@[i] < indices@[k]);
            }
            if k < i {
                assert(indices@[k] < indices@[i]);
            }
        }
    }
    match found {
        Some(index) => {
            let offset: usize = indices[index];
            if offset < alphabet_length(character_type) {
                Some(LetterInfo::new(offset, uppercase, letter_type, letter_style, character_type))
            } else {
                None
            }
        },
        None => None,
    }
}

/// Looks a character up in every override table.
fn corner_case_info(ch: char) -> (r: Option<LetterInfo>)
    ensures
        r == override_info(ch),
{
    let (indices, chars) = ScriptType::get_normal_corner_case(true);
    let mut found = table_info(
        &indices,
        &chars,
        ch,
        true,
        StyledLetter::Script,
        LetterStyle::Normal,
        CharacterType::Letter,
    );
    if found.is_none() {
        let (indices, chars) = ScriptType::get_normal_corner_case(false);
        found = table_info(
            &indices,
            &chars,
            ch,
            false,
            StyledLetter::Script,
            LetterStyle::Normal,
            CharacterType::Letter,
        );
    }
    if found.is_none() {
        let (indices, chars) = FrakturType::get_normal_corner_case();
        found = table_info(
            &indices,
            &chars,
            ch,
            true,
            StyledLetter::Fraktur,
            LetterStyle::Normal,
            CharacterType::Letter,
        );
    }
    if found.is_none() {
        let (indices, chars) = DoubleStruckType::get_bold_corner_case();
        found = table_info(
            &indices,
            &chars,
            ch,
            true,
            StyledLetter::DoubleStruck,
            LetterStyle::Bold,
            CharacterType::Letter,
        );
    }
    if found.is_none() {
        let (indices, chars) = GreekType::get_normal_corner_case(true);
        found = table_info(
            &indices,
            &chars,
            ch,
            true,
            StyledLetter::Serif,
            LetterStyle::Normal,
            CharacterType::Greek,
        );
    }
    if found.is_none() {
        let (indices, chars) = GreekType::get_normal_corner_case(false);
        found = table_info(
            &indices,
            &chars,
            ch,
            false,
            StyledLetter::Serif,
            LetterStyle::Normal,
            CharacterType::Greek,
        );
    }
    if found.is_none() && ch == '\u{210E}' {
        found = Some(
            LetterInfo::new(
                7,
                false,
                StyledLetter::Serif,
                LetterStyle::Italic,
                CharacterType::Letter,
            ),
        );
    }
    proof {
        match found {
            Some(info) => {
                lemma_override_tables_agree(ch, info);
            },
            None => {
                if override_info(ch) is Some {
                    lemma_override_tables_agree(ch, override_info(ch)->0);
                }
            },
        }
    }
    found
}

impl CharacterInfo {
    /// Reads a character: first as a member of one of the runs of the
    /// registry, then as one of the overrides; a character that is neither
    /// comes back unchanged as `Other`. The offset of a reading lies within
    /// the alphabet of its category.
    pub fn get_letter_info(ch: char) -> (r: CharacterInfo)
        ensures
            r == character_info(ch),
            r matches CharacterInfo::Letter(info) ==> info.offset < alphabet_len(
                info.character_type,
            ) && info.character_type != CharacterType::Other,
    {
        let val: u32 = ch as u32;
        let mut found = letter_range_info(val);
        if found.is_none() {
            found = greek_range_info(val);
        }
        if found.is_none() {
            found = digit_range_info(val);
        }
        proof {
            if let Some(info) = found {
                lemma_run_is_read(val as int, info.character_type, info);
            }
        }
        if found.is_none() {
            found = corner_case_info(ch);
        }
        proof {
            if found is Some {
                lemma_reading_is_valid(ch);
            }
        }
        match found {
            Some(info) => CharacterInfo::Letter(info),
            None => CharacterInfo::Other(ch),
        }
    }
}

impl LetterInfo {
    /// A reading with the given parts. Nothing is asked of them: the
    /// classifier gives no offset beyond the alphabet, and one made here is
    /// refused when the reading is written.
    pub fn new(
        offset: usize,
        uppercase: bool,
        letter_type: StyledLetter,
        letter_style: LetterStyle,
        character_type: CharacterType,
    ) -> (info: Self)
        ensures
            info == letter_info(offset, uppercase, letter_type, letter_style, character_type),
    {
        Self { offset, uppercase, letter_type, letter_style, character_type }
    }

    /// Writes the letter or digit in the requested typeface and emphasis.
    /// The typeface and emphasis in which it was read play no part.
    pub fn convert(&self, letter_type: &StyledLetter, letter_style: &LetterStyle) -> (r: Result<
        char,
        LetterTypeError,
    >)
        ensures
            r == encoded(
                self.character_type,
                self.uppercase,
                self.offset,
                *letter_type,
                *letter_style,
            ),
    {
        match self.character_type {
            CharacterType::Letter => match *letter_type {
                StyledLetter::Serif => {
                    let serif = SerifType::new();
                    serif.get_char(self.offset, letter_style, self.uppercase)
                },
                StyledLetter::SansSerif => {
                    let sans_serif = SansSerifType::new();
                    sans_serif.get_char(self.offset, letter_style, self.uppercase)
                },
                StyledLetter::Script => {
                    let script = ScriptType::new();
                    script.get_char(self.offset, letter_style, self.uppercase)
                },
                StyledLetter::Fraktur => {
                    let fraktur = FrakturType::new();
                    fraktur.get_char(self.offset, letter_style, self.uppercase)
                },
                StyledLetter::MonoSpace => {
                    let mono = MonoSpaceType::new();
                    mono.get_char(self.offset, letter_style, self.uppercase)
                },
                StyledLetter::DoubleStruck => {
                    let double_struck = DoubleStruckType::new();
                    double_struck.get_char(self.offset, letter_style, self.uppercase)
                },
            },
            CharacterType::Greek => match *letter_type {
                StyledLetter::Serif => {
                    let serif = GreekType::new();
                    serif.get_char(self.offset, letter_style, self.uppercase)
                },
                StyledLetter::SansSerif => {
                    let sans_serif = GreekSansSerifType::new();
                    sans_serif.get_char(self.offset, letter_style, self.uppercase)
                },
                StyledLetter::Script => Err(LetterTypeError::InvalidTypeError),
                StyledLetter::Fraktur => Err(LetterTypeError::InvalidTypeError),
                StyledLetter::MonoSpace => Err(LetterTypeError::InvalidTypeError),
                StyledLetter::DoubleStruck => Err(LetterTypeError::InvalidTypeError),
            },
            CharacterType::Digit => match *letter_type {
                StyledLetter::Serif => {
                    let serif = DigitType::new();
                    serif.get_char(self.offset, letter_style, self.uppercase)
                },
                StyledLetter::SansSerif => {
                    let sans_serif = DigitSansSerifType::new();
                    sans_serif.get_char(self.offset, letter_style, self.uppercase)
                },
                StyledLetter::Script => Err(LetterTypeError::InvalidTypeError),
                StyledLetter::Fraktur => Err(LetterTypeError::InvalidTypeError),
                StyledLetter::MonoSpace => {
                    let mono = DigitMonoSpaceType::new();
                    mono.get_char(self.offset, letter_style, self.uppercase)
                },
                StyledLetter::DoubleStruck => {
                    let double_struck = DigitDoubleStruckType::new();
                    double_struck.get_char(self.offset, letter_style, self.uppercase)
                },
            },
            CharacterType::Other => Err(LetterTypeError::InvalidTypeError),
        }
    }
}

} // verus!
