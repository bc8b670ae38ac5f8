use styledtextlib::lookup::{based_char, find_char, find_offset};
use styledtextlib::registry::code_to_char;
use styledtextlib::{
    DigitDoubleStruckType, DigitMonoSpaceType, DigitSansSerifType, DigitType, DoubleStruckType,
    FrakturType, GreekSansSerifType, GreekType, LetterStyle, LetterTypeError, MonoSpaceType,
    SansSerifType, ScriptType, SerifType, TypeStyle,
};

#[test]
fn corner_case_tables_are_sorted_pairs() {
    assert_eq!(
        ScriptType::get_normal_corner_case(true),
        (
            vec![1, 4, 5, 7, 8, 11, 12, 17],
            vec!['\u{212C}', '\u{2130}', '\u{2131}', '\u{210B}', '\u{2110}', '\u{2112}', '\u{2133}', '\u{211B}']
        )
    );
    assert_eq!(
        ScriptType::get_normal_corner_case(false),
        (vec![4, 6, 14], vec!['\u{212F}', '\u{210A}', '\u{2134}'])
    );
    assert_eq!(
        FrakturType::get_normal_corner_case(),
        (vec![2, 7, 8, 17, 25], vec!['\u{212D}', '\u{210C}', '\u{2111}', '\u{211C}', '\u{2128}'])
    );
    assert_eq!(
        DoubleStruckType::get_bold_corner_case(),
        (
            vec![2, 7, 13, 15, 16, 17, 25],
            vec!['\u{2102}', '\u{210D}', '\u{2115}', '\u{2119}', '\u{211A}', '\u{211D}', '\u{2124}']
        )
    );
    assert_eq!(
        GreekType::get_normal_corner_case(true),
        (vec![17, 25], vec!['\u{3F4}', '\u{2207}'])
    );
    assert_eq!(
        GreekType::get_normal_corner_case(false),
        (
            vec![25, 26, 27, 28, 29, 30, 31],
            vec!['\u{2202}', '\u{3F5}', '\u{3D1}', '\u{3F0}', '\u{3D5}', '\u{3F1}', '\u{3D6}']
        )
    );
}

#[test]
fn double_struck_capitals_use_the_letterlike_symbols() {
    let double_struck = DoubleStruckType::new();
    let (offsets, chars) = DoubleStruckType::get_bold_corner_case();
    for (idx, offset) in offsets.iter().enumerate() {
        assert_eq!(double_struck.bold(*offset, true), Ok(chars[idx]));
    }
    // the small letters at the same offsets follow the base
    assert_eq!(double_struck.bold(2, false), Ok('\u{1D554}'));
    assert_eq!(double_struck.bold(0, true), Ok('\u{1D538}'));
    assert_eq!(double_struck.normal(0, true), Err(LetterTypeError::InvalidStyleError));
    assert_eq!(double_struck.italic(0, true), Err(LetterTypeError::InvalidStyleError));
    assert_eq!(double_struck.bold_italic(0, true), Err(LetterTypeError::InvalidStyleError));
    assert_eq!(double_struck.normal(26, true), Err(LetterTypeError::ExceedLengthError(26)));
}

#[test]
fn greek_tables() {
    let greek = GreekType::new();
    assert_eq!(greek.normal(0, true), Ok('\u{391}'));
    assert_eq!(greek.normal(17, true), Ok('\u{3F4}'));
    assert_eq!(greek.normal(25, true), Ok('\u{2207}'));
    assert_eq!(greek.normal(24, false), Ok('\u{3C9}'));
    assert_eq!(greek.normal(25, false), Ok('\u{2202}'));
    assert_eq!(greek.normal(26, false), Err(LetterTypeError::ExceedLengthError(26)));
    assert_eq!(greek.bold(17, true), Ok('\u{1D6B9}'));
    assert_eq!(greek.italic(0, false), Ok('\u{1D6FC}'));
    assert_eq!(greek.bold_italic(25, false), Ok('\u{1D74F}'));
    let sans = GreekSansSerifType::new();
    assert_eq!(sans.normal(0, true), Err(LetterTypeError::InvalidStyleError));
    assert_eq!(sans.bold(0, true), Ok('\u{1D756}'));
    assert_eq!(sans.italic(0, true), Err(LetterTypeError::InvalidStyleError));
    assert_eq!(sans.bold_italic(25, false), Ok('\u{1D7C3}'));
    assert_eq!(sans.bold(26, false), Err(LetterTypeError::ExceedLengthError(26)));
}

#[test]
fn digit_tables() {
    let serif = DigitType::new();
    assert_eq!(serif.normal(0, false), Ok('0'));
    assert_eq!(serif.normal(9, true), Ok('9'));
    assert_eq!(serif.bold(9, false), Ok('\u{1D7D7}'));
    assert_eq!(serif.italic(0, false), Err(LetterTypeError::InvalidStyleError));
    assert_eq!(serif.bold_italic(0, false), Err(LetterTypeError::InvalidStyleError));
    assert_eq!(serif.normal(10, false), Err(LetterTypeError::ExceedLengthError(10)));
    let double_struck = DigitDoubleStruckType::new();
    assert_eq!(double_struck.normal(1, false), Ok('\u{1D7D9}'));
    assert_eq!(double_struck.bold(1, false), Err(LetterTypeError::InvalidStyleError));
    assert_eq!(double_struck.italic(10, false), Err(LetterTypeError::ExceedLengthError(10)));
    assert_eq!(double_struck.bold_italic(1, false), Err(LetterTypeError::InvalidStyleError));
    let sans = DigitSansSerifType::new();
    assert_eq!(sans.normal(2, false), Ok('\u{1D7E4}'));
    assert_eq!(sans.bold(2, true), Ok('\u{1D7EE}'));
    assert_eq!(sans.italic(2, false), Err(LetterTypeError::InvalidStyleError));
    assert_eq!(sans.bold_italic(2, false), Err(LetterTypeError::InvalidStyleError));
    let mono = DigitMonoSpaceType::new();
    assert_eq!(mono.normal(9, false), Ok('\u{1D7FF}'));
    assert_eq!(mono.bold(9, false), Err(LetterTypeError::InvalidStyleError));
    assert_eq!(mono.italic(9, false), Err(LetterTypeError::InvalidStyleError));
    assert_eq!(mono.bold_italic(11, false), Err(LetterTypeError::ExceedLengthError(11)));
}

#[test]
fn latin_tables() {
    let serif = SerifType::new();
    assert_eq!(serif.normal(0, true), Ok('A'));
    assert_eq!(serif.normal(25, false), Ok('z'));
    assert_eq!(serif.bold(1, true), Ok('\u{1D401}'));
    assert_eq!(serif.italic(7, true), Ok('\u{1D43B}'));
    assert_eq!(serif.italic(6, false), Ok('\u{1D454}'));
    assert_eq!(serif.italic(8, false), Ok('\u{1D456}'));
    assert_eq!(serif.bold_italic(7, false), Ok('\u{1D489}'));
    assert_eq!(serif.bold(26, true), Err(LetterTypeError::ExceedLengthError(26)));
    let sans = SansSerifType::new();
    assert_eq!(sans.normal(0, true), Ok('\u{1D5A0}'));
    assert_eq!(sans.bold(0, false), Ok('\u{1D5EE}'));
    assert_eq!(sans.italic(25, true), Ok('\u{1D621}'));
    assert_eq!(sans.bold_italic(25, false), Ok('\u{1D66F}'));
    let script = ScriptType::new();
    assert_eq!(script.normal(0, true), Ok('\u{1D49C}'));
    assert_eq!(script.normal(9, true), Ok('\u{1D4A5}'));
    assert_eq!(script.normal(5, false), Ok('\u{1D4BB}'));
    assert_eq!(script.bold(1, true), Ok('\u{1D4D1}'));
    assert_eq!(script.italic(1, true), Err(LetterTypeError::InvalidStyleError));
    assert_eq!(script.bold_italic(30, true), Err(LetterTypeError::ExceedLengthError(30)));
    let fraktur = FrakturType::new();
    assert_eq!(fraktur.normal(0, true), Ok('\u{1D504}'));
    assert_eq!(fraktur.normal(2, false), Ok('\u{1D520}'));
    assert_eq!(fraktur.bold(2, true), Ok('\u{1D56E}'));
    assert_eq!(fraktur.italic(2, true), Err(LetterTypeError::InvalidStyleError));
    assert_eq!(fraktur.bold_italic(2, true), Err(LetterTypeError::InvalidStyleError));
    let mono = MonoSpaceType::new();
    assert_eq!(mono.normal(0, true), Ok('\u{1D670}'));
    assert_eq!(mono.bold(0, true), Err(LetterTypeError::InvalidStyleError));
    assert_eq!(mono.italic(0, true), Err(LetterTypeError::InvalidStyleError));
    assert_eq!(mono.bold_italic(0, true), Err(LetterTypeError::InvalidStyleError));
}

#[test]
fn get_char_follows_the_style() {
    let serif = SerifType::new();
    assert_eq!(serif.get_char(7, &LetterStyle::Normal, false), Ok('h'));
    assert_eq!(serif.get_char(7, &LetterStyle::Bold, false), Ok('\u{1D421}'));
    assert_eq!(serif.get_char(7, &LetterStyle::Italic, false), Ok('\u{210E}'));
    assert_eq!(serif.get_char(7, &LetterStyle::BoldItalic, false), Ok('\u{1D489}'));
    let mono = DigitMonoSpaceType::new();
    assert_eq!(mono.get_char(3, &LetterStyle::Normal, false), Ok('\u{1D7F9}'));
    assert_eq!(mono.get_char(3, &LetterStyle::Bold, false), Err(LetterTypeError::InvalidStyleError));
}

#[test]
fn a_code_becomes_a_character_only_if_it_is_a_scalar_value() {
    assert_eq!(code_to_char(0x41), Ok('A'));
    assert_eq!(code_to_char(0), Ok('\u{0}'));
    assert_eq!(code_to_char(0xD7FF), Ok('\u{D7FF}'));
    assert_eq!(code_to_char(0xD800), Err(LetterTypeError::InvalidCodeError(0xD800)));
    assert_eq!(code_to_char(0xDFFF), Err(LetterTypeError::InvalidCodeError(0xDFFF)));
    assert_eq!(code_to_char(0xE000), Ok('\u{E000}'));
    assert_eq!(code_to_char(0x10FFFF), Ok('\u{10FFFF}'));
    assert_eq!(code_to_char(0x110000), Err(LetterTypeError::InvalidCodeError(0x110000)));
    assert_eq!(code_to_char(u32::MAX), Err(LetterTypeError::InvalidCodeError(u32::MAX)));
}

#[test]
fn a_character_stands_at_its_offset_behind_the_base() {
    assert_eq!(based_char((0x41, 0x61), true, 2), Ok('C'));
    assert_eq!(based_char((0x41, 0x61), false, 2), Ok('c'));
    assert_eq!(based_char((0xD7FF, 0x61), true, 1), Err(LetterTypeError::InvalidCodeError(0xD800)));
}

#[test]
fn offsets_and_characters_are_found_in_their_lists() {
    let offsets: Vec<usize> = vec![1, 4, 5, 7, 8, 11, 12, 17];
    for (idx, offset) in offsets.iter().enumerate() {
        assert_eq!(find_offset(&offsets, *offset), Some(idx));
    }
    for missing in [0, 2, 3, 6, 9, 10, 13, 16, 18, 1000] {
        assert_eq!(find_offset(&offsets, missing), None);
    }
    assert_eq!(find_offset(&Vec::new(), 0), None);
    let chars: Vec<char> = vec!['b', 'a', 'c', 'a'];
    assert_eq!(find_char(&chars, 'b'), Some(0));
    assert_eq!(find_char(&chars, 'a'), Some(1));
    assert_eq!(find_char(&chars, 'c'), Some(2));
    assert_eq!(find_char(&chars, 'd'), None);
}
