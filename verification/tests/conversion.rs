use styledtextlib::{
    convert, CharacterInfo, CharacterType, LetterInfo, LetterStyle, LetterTypeError, StyledLetter,
};

const FAMILIES: [StyledLetter; 6] = [
    StyledLetter::Serif,
    StyledLetter::SansSerif,
    StyledLetter::Script,
    StyledLetter::Fraktur,
    StyledLetter::MonoSpace,
    StyledLetter::DoubleStruck,
];

const STYLES: [LetterStyle; 4] =
    [LetterStyle::Normal, LetterStyle::Bold, LetterStyle::Italic, LetterStyle::BoldItalic];

fn read(ch: char) -> Option<LetterInfo> {
    match CharacterInfo::get_letter_info(ch) {
        CharacterInfo::Letter(info) => Some(info),
        CharacterInfo::Other(_) => None,
    }
}

fn every_char_of_interest() -> Vec<char> {
    let mut chars = Vec::new();
    for code in (0u32..0x600).chain(0x2000..0x2400).chain(0x1D3F0..0x1D810) {
        if let Some(ch) = char::from_u32(code) {
            chars.push(ch);
        }
    }
    chars
}

#[test]
fn corner_cases_are_exact() {
    assert_eq!(convert('H', &StyledLetter::Script, &LetterStyle::Normal), Ok('\u{210B}'));
    assert_eq!(convert('C', &StyledLetter::Fraktur, &LetterStyle::Normal), Ok('\u{212D}'));
    assert_eq!(convert('C', &StyledLetter::DoubleStruck, &LetterStyle::Bold), Ok('\u{2102}'));
    assert_eq!(convert('h', &StyledLetter::Serif, &LetterStyle::Italic), Ok('\u{210E}'));
}

#[test]
fn arithmetic_path_is_exact() {
    assert_eq!(convert('A', &StyledLetter::Serif, &LetterStyle::Bold), Ok('\u{1D400}'));
    assert_eq!(convert('a', &StyledLetter::SansSerif, &LetterStyle::Normal), Ok('\u{1D5BA}'));
    assert_eq!(convert('0', &StyledLetter::SansSerif, &LetterStyle::Bold), Ok('\u{1D7EC}'));
    assert_eq!(convert('Z', &StyledLetter::MonoSpace, &LetterStyle::Normal), Ok('\u{1D689}'));
    assert_eq!(convert('z', &StyledLetter::Fraktur, &LetterStyle::Bold), Ok('\u{1D59F}'));
    assert_eq!(convert('9', &StyledLetter::DoubleStruck, &LetterStyle::Normal), Ok('\u{1D7E1}'));
    assert_eq!(convert('\u{3B1}', &StyledLetter::Serif, &LetterStyle::Bold), Ok('\u{1D6C2}'));
    assert_eq!(convert('\u{3A9}', &StyledLetter::SansSerif, &LetterStyle::BoldItalic), Ok('\u{1D7A8}'));
}

#[test]
fn styled_characters_convert_back_to_plain() {
    assert_eq!(convert('\u{210B}', &StyledLetter::Serif, &LetterStyle::Normal), Ok('H'));
    assert_eq!(convert('\u{210E}', &StyledLetter::Serif, &LetterStyle::Normal), Ok('h'));
    assert_eq!(convert('\u{212F}', &StyledLetter::Serif, &LetterStyle::Normal), Ok('e'));
    assert_eq!(convert('\u{2124}', &StyledLetter::Serif, &LetterStyle::Normal), Ok('Z'));
    assert_eq!(convert('\u{1D7FF}', &StyledLetter::Serif, &LetterStyle::Normal), Ok('9'));
    assert_eq!(convert('\u{1D400}', &StyledLetter::Serif, &LetterStyle::Normal), Ok('A'));
}

#[test]
fn unsupported_combinations_are_reported() {
    assert_eq!(
        convert('5', &StyledLetter::Script, &LetterStyle::Normal),
        Err(LetterTypeError::InvalidTypeError)
    );
    assert_eq!(
        convert('\u{3B1}', &StyledLetter::Fraktur, &LetterStyle::Normal),
        Err(LetterTypeError::InvalidTypeError)
    );
    assert_eq!(
        convert('A', &StyledLetter::MonoSpace, &LetterStyle::Bold),
        Err(LetterTypeError::InvalidStyleError)
    );
    assert_eq!(
        convert('A', &StyledLetter::DoubleStruck, &LetterStyle::Normal),
        Err(LetterTypeError::InvalidStyleError)
    );
    assert_eq!(
        convert('7', &StyledLetter::Serif, &LetterStyle::Italic),
        Err(LetterTypeError::InvalidStyleError)
    );
    assert_eq!(
        convert('\u{3B1}', &StyledLetter::SansSerif, &LetterStyle::Normal),
        Err(LetterTypeError::InvalidStyleError)
    );
    for result in [
        convert('5', &StyledLetter::Script, &LetterStyle::Normal),
        convert('A', &StyledLetter::MonoSpace, &LetterStyle::Bold),
    ] {
        assert!(result.unwrap_err().is_unsupported_combination());
    }
    assert!(!LetterTypeError::ExceedLengthError(26).is_unsupported_combination());
    assert!(!LetterTypeError::InvalidCodeError(0xD800).is_unsupported_combination());
}

#[test]
fn other_characters_pass_through() {
    for ch in ['!', ' ', '\n', '@', '[', '`', '{', '/', ':', '\u{4E2D}', '\u{1F600}', '\u{0}', '\u{10FFFF}', '\u{1D6A4}', '\u{1D7CA}', '\u{3AB}', '\u{390}'] {
        assert_eq!(CharacterInfo::get_letter_info(ch), CharacterInfo::Other(ch));
        for family in FAMILIES.iter() {
            for style in STYLES.iter() {
                assert_eq!(convert(ch, family, style), Ok(ch));
            }
        }
    }
}

#[test]
fn what_is_written_is_read_back() {
    for ch in every_char_of_interest() {
        let info = match read(ch) {
            Some(info) => info,
            None => continue,
        };
        for family in FAMILIES.iter() {
            for style in STYLES.iter() {
                if let Ok(out) = convert(ch, family, style) {
                    let back = read(out).unwrap();
                    assert_eq!(back.character_type, info.character_type);
                    assert_eq!(back.uppercase, info.uppercase);
                    assert_eq!(back.offset, info.offset);
                    assert_eq!(back.letter_type, *family);
                    assert_eq!(back.letter_style, *style);
                }
            }
        }
    }
}

#[test]
fn restyling_twice_is_restyling_once() {
    for ch in ['A', 'h', 'Z', '7', '\u{3B1}', '\u{3A9}', '\u{210B}', '\u{1D7DA}', '?'] {
        for family in FAMILIES.iter() {
            for style in STYLES.iter() {
                if let Ok(out) = convert(ch, family, style) {
                    for next_family in FAMILIES.iter() {
                        for next_style in STYLES.iter() {
                            assert_eq!(
                                convert(out, next_family, next_style),
                                convert(ch, next_family, next_style)
                            );
                        }
                    }
                }
            }
        }
    }
}

#[test]
fn first_and_last_offsets_resolve_where_the_style_exists() {
    let supported: [(CharacterType, StyledLetter, LetterStyle, usize); 24] = [
        (CharacterType::Letter, StyledLetter::Serif, LetterStyle::Normal, 26),
        (CharacterType::Letter, StyledLetter::Serif, LetterStyle::Bold, 26),
        (CharacterType::Letter, StyledLetter::Serif, LetterStyle::Italic, 26),
        (CharacterType::Letter, StyledLetter::Serif, LetterStyle::BoldItalic, 26),
        (CharacterType::Letter, StyledLetter::SansSerif, LetterStyle::Normal, 26),
        (CharacterType::Letter, StyledLetter::SansSerif, LetterStyle::Bold, 26),
        (CharacterType::Letter, StyledLetter::SansSerif, LetterStyle::Italic, 26),
        (CharacterType::Letter, StyledLetter::SansSerif, LetterStyle::BoldItalic, 26),
        (CharacterType::Letter, StyledLetter::Script, LetterStyle::Normal, 26),
        (CharacterType::Letter, StyledLetter::Script, LetterStyle::Bold, 26),
        (CharacterType::Letter, StyledLetter::Fraktur, LetterStyle::Normal, 26),
        (CharacterType::Letter, StyledLetter::Fraktur, LetterStyle::Bold, 26),
        (CharacterType::Letter, StyledLetter::MonoSpace, LetterStyle::Normal, 26),
        (CharacterType::Letter, StyledLetter::DoubleStruck, LetterStyle::Bold, 26),
        (CharacterType::Greek, StyledLetter::Serif, LetterStyle::Normal, 26),
        (CharacterType::Greek, StyledLetter::Serif, LetterStyle::Bold, 26),
        (CharacterType::Greek, StyledLetter::Serif, LetterStyle::Italic, 26),
        (CharacterType::Greek, StyledLetter::Serif, LetterStyle::BoldItalic, 26),
        (CharacterType::Greek, StyledLetter::SansSerif, LetterStyle::Bold, 26),
        (CharacterType::Greek, StyledLetter::SansSerif, LetterStyle::BoldItalic, 26),
        (CharacterType::Digit, StyledLetter::Serif, LetterStyle::Normal, 10),
        (CharacterType::Digit, StyledLetter::Serif, LetterStyle::Bold, 10),
        (CharacterType::Digit, StyledLetter::SansSerif, LetterStyle::Normal, 10),
        (CharacterType::Digit, StyledLetter::SansSerif, LetterStyle::Bold, 10),
    ];
    for (category, family, style, len) in supported.iter() {
        for uppercase in [true, false] {
            for offset in [0, len - 1] {
                let info =
                    LetterInfo::new(offset, uppercase, StyledLetter::Serif, LetterStyle::Normal, *category);
                assert!(info.convert(family, style).is_ok());
            }
            let info = LetterInfo::new(*len, uppercase, StyledLetter::Serif, LetterStyle::Normal, *category);
            assert_eq!(info.convert(family, style), Err(LetterTypeError::ExceedLengthError(*len)));
        }
    }
    for (family, style) in [
        (StyledLetter::MonoSpace, LetterStyle::Normal),
        (StyledLetter::DoubleStruck, LetterStyle::Normal),
    ] {
        for offset in [0, 9] {
            let info =
                LetterInfo::new(offset, false, StyledLetter::Serif, LetterStyle::Normal, CharacterType::Digit);
            assert!(info.convert(&family, &style).is_ok());
        }
    }
}

#[test]
fn boundary_offsets_give_the_ends_of_the_runs() {
    let first = LetterInfo::new(0, true, StyledLetter::Serif, LetterStyle::Normal, CharacterType::Letter);
    let last = LetterInfo::new(25, false, StyledLetter::Serif, LetterStyle::Normal, CharacterType::Letter);
    assert_eq!(first.convert(&StyledLetter::SansSerif, &LetterStyle::BoldItalic), Ok('\u{1D63C}'));
    assert_eq!(last.convert(&StyledLetter::SansSerif, &LetterStyle::BoldItalic), Ok('\u{1D66F}'));
    let zero = LetterInfo::new(0, false, StyledLetter::Serif, LetterStyle::Normal, CharacterType::Digit);
    let nine = LetterInfo::new(9, false, StyledLetter::Serif, LetterStyle::Normal, CharacterType::Digit);
    assert_eq!(zero.convert(&StyledLetter::MonoSpace, &LetterStyle::Normal), Ok('\u{1D7F6}'));
    assert_eq!(nine.convert(&StyledLetter::MonoSpace, &LetterStyle::Normal), Ok('\u{1D7FF}'));
    let alpha = LetterInfo::new(0, false, StyledLetter::Serif, LetterStyle::Normal, CharacterType::Greek);
    let nabla = LetterInfo::new(25, true, StyledLetter::Serif, LetterStyle::Normal, CharacterType::Greek);
    assert_eq!(alpha.convert(&StyledLetter::Serif, &LetterStyle::Italic), Ok('\u{1D6FC}'));
    assert_eq!(nabla.convert(&StyledLetter::Serif, &LetterStyle::Bold), Ok('\u{1D6C1}'));
    assert_eq!(nabla.convert(&StyledLetter::Serif, &LetterStyle::Normal), Ok('\u{2207}'));
}

#[test]
fn an_offset_beyond_the_alphabet_is_rejected() {
    let letter = LetterInfo::new(26, true, StyledLetter::Serif, LetterStyle::Normal, CharacterType::Letter);
    assert_eq!(
        letter.convert(&StyledLetter::Serif, &LetterStyle::Bold),
        Err(LetterTypeError::ExceedLengthError(26))
    );
    let digit = LetterInfo::new(10, false, StyledLetter::Serif, LetterStyle::Normal, CharacterType::Digit);
    assert_eq!(
        digit.convert(&StyledLetter::Serif, &LetterStyle::Bold),
        Err(LetterTypeError::ExceedLengthError(10))
    );
    // the missing table is reported before the offset is looked at
    assert_eq!(
        digit.convert(&StyledLetter::Script, &LetterStyle::Bold),
        Err(LetterTypeError::InvalidTypeError)
    );
    // the offset is looked at before the emphasis
    assert_eq!(
        digit.convert(&StyledLetter::Serif, &LetterStyle::Italic),
        Err(LetterTypeError::ExceedLengthError(10))
    );
    let other = LetterInfo::new(0, false, StyledLetter::Serif, LetterStyle::Normal, CharacterType::Other);
    assert_eq!(
        other.convert(&StyledLetter::Serif, &LetterStyle::Normal),
        Err(LetterTypeError::InvalidTypeError)
    );
}

#[test]
fn no_reading_lies_beyond_its_alphabet() {
    for ch in every_char_of_interest() {
        if let Some(info) = read(ch) {
            let len = if info.character_type == CharacterType::Digit { 10 } else { 26 };
            assert!(info.offset < len);
            assert_ne!(info.character_type, CharacterType::Other);
        }
        for family in FAMILIES.iter() {
            for style in STYLES.iter() {
                match convert(ch, family, style) {
                    Ok(_) => {}
                    Err(e) => {
                        assert!(e.is_unsupported_combination());
                        assert!(!matches!(e, LetterTypeError::ExceedLengthError(_)));
                        assert!(!matches!(e, LetterTypeError::InvalidCodeError(_)));
                    }
                }
            }
        }
    }
}

#[test]
fn what_follows_a_small_greek_alphabet_passes_through() {
    let behind_the_runs = [
        '\u{3CB}', '\u{3D0}', '\u{1D6DC}', '\u{1D6E1}', '\u{1D716}', '\u{1D71B}', '\u{1D750}',
        '\u{1D755}', '\u{1D78A}', '\u{1D78F}', '\u{1D7C4}', '\u{1D7C9}',
    ];
    let variant_letters = ['\u{3F5}', '\u{3D1}', '\u{3F0}', '\u{3D5}', '\u{3F1}', '\u{3D6}'];
    for ch in behind_the_runs.iter().chain(variant_letters.iter()) {
        assert_eq!(CharacterInfo::get_letter_info(*ch), CharacterInfo::Other(*ch));
        for family in FAMILIES.iter() {
            for style in STYLES.iter() {
                assert_eq!(convert(*ch, family, style), Ok(*ch));
            }
        }
    }
}

#[test]
fn the_last_small_greek_place_is_read_and_written() {
    assert_eq!(convert('\u{3CA}', &StyledLetter::Serif, &LetterStyle::Bold), Ok('\u{1D6DB}'));
    assert_eq!(convert('\u{2202}', &StyledLetter::Serif, &LetterStyle::Bold), Ok('\u{1D6DB}'));
    assert_eq!(convert('\u{1D6DB}', &StyledLetter::Serif, &LetterStyle::Normal), Ok('\u{2202}'));
    assert_eq!(
        convert('\u{1D7C3}', &StyledLetter::SansSerif, &LetterStyle::Bold),
        Ok('\u{1D789}')
    );
    assert_eq!(
        convert('\u{3C9}', &StyledLetter::Serif, &LetterStyle::BoldItalic),
        Ok('\u{1D74E}')
    );
}
