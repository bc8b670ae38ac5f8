use styledtextlib::{CharacterInfo, CharacterType, LetterInfo, LetterStyle, StyledLetter};

fn letter(
    offset: usize,
    uppercase: bool,
    letter_type: StyledLetter,
    letter_style: LetterStyle,
    character_type: CharacterType,
) -> CharacterInfo {
    CharacterInfo::Letter(LetterInfo::new(offset, uppercase, letter_type, letter_style, character_type))
}

#[test]
fn plain_characters_are_read_as_serif_normal() {
    assert_eq!(
        CharacterInfo::get_letter_info('A'),
        letter(0, true, StyledLetter::Serif, LetterStyle::Normal, CharacterType::Letter)
    );
    assert_eq!(
        CharacterInfo::get_letter_info('z'),
        letter(25, false, StyledLetter::Serif, LetterStyle::Normal, CharacterType::Letter)
    );
    assert_eq!(
        CharacterInfo::get_letter_info('5'),
        letter(5, false, StyledLetter::Serif, LetterStyle::Normal, CharacterType::Digit)
    );
    assert_eq!(
        CharacterInfo::get_letter_info('\u{3B1}'),
        letter(0, false, StyledLetter::Serif, LetterStyle::Normal, CharacterType::Greek)
    );
    assert_eq!(
        CharacterInfo::get_letter_info('\u{3AA}'),
        letter(25, true, StyledLetter::Serif, LetterStyle::Normal, CharacterType::Greek)
    );
}

#[test]
fn styled_runs_are_read_with_their_style() {
    assert_eq!(
        CharacterInfo::get_letter_info('\u{1D538}'),
        letter(0, true, StyledLetter::DoubleStruck, LetterStyle::Bold, CharacterType::Letter)
    );
    assert_eq!(
        CharacterInfo::get_letter_info('\u{1D6A3}'),
        letter(25, false, StyledLetter::MonoSpace, LetterStyle::Normal, CharacterType::Letter)
    );
    assert_eq!(
        CharacterInfo::get_letter_info('\u{1D56C}'),
        letter(0, true, StyledLetter::Fraktur, LetterStyle::Bold, CharacterType::Letter)
    );
    assert_eq!(
        CharacterInfo::get_letter_info('\u{1D7C3}'),
        letter(25, false, StyledLetter::SansSerif, LetterStyle::BoldItalic, CharacterType::Greek)
    );
    assert_eq!(
        CharacterInfo::get_letter_info('\u{3CA}'),
        letter(25, false, StyledLetter::Serif, LetterStyle::Normal, CharacterType::Greek)
    );
    assert_eq!(
        CharacterInfo::get_letter_info('\u{1D76F}'),
        letter(25, true, StyledLetter::SansSerif, LetterStyle::Bold, CharacterType::Greek)
    );
}

#[test]
fn the_runs_of_the_digits_are_read_with_their_typeface() {
    assert_eq!(
        CharacterInfo::get_letter_info('\u{1D7CE}'),
        letter(0, false, StyledLetter::Serif, LetterStyle::Bold, CharacterType::Digit)
    );
    assert_eq!(
        CharacterInfo::get_letter_info('\u{1D7D8}'),
        letter(0, false, StyledLetter::DoubleStruck, LetterStyle::Normal, CharacterType::Digit)
    );
    assert_eq!(
        CharacterInfo::get_letter_info('\u{1D7E2}'),
        letter(0, false, StyledLetter::SansSerif, LetterStyle::Normal, CharacterType::Digit)
    );
    assert_eq!(
        CharacterInfo::get_letter_info('\u{1D7EC}'),
        letter(0, false, StyledLetter::SansSerif, LetterStyle::Bold, CharacterType::Digit)
    );
    assert_eq!(
        CharacterInfo::get_letter_info('\u{1D7F6}'),
        letter(0, false, StyledLetter::MonoSpace, LetterStyle::Normal, CharacterType::Digit)
    );
    assert_eq!(
        CharacterInfo::get_letter_info('\u{1D7FF}'),
        letter(9, false, StyledLetter::MonoSpace, LetterStyle::Normal, CharacterType::Digit)
    );
}

#[test]
fn overrides_are_read_with_their_case() {
    assert_eq!(
        CharacterInfo::get_letter_info('\u{210B}'),
        letter(7, true, StyledLetter::Script, LetterStyle::Normal, CharacterType::Letter)
    );
    assert_eq!(
        CharacterInfo::get_letter_info('\u{2134}'),
        letter(14, false, StyledLetter::Script, LetterStyle::Normal, CharacterType::Letter)
    );
    assert_eq!(
        CharacterInfo::get_letter_info('\u{2128}'),
        letter(25, true, StyledLetter::Fraktur, LetterStyle::Normal, CharacterType::Letter)
    );
    assert_eq!(
        CharacterInfo::get_letter_info('\u{2115}'),
        letter(13, true, StyledLetter::DoubleStruck, LetterStyle::Bold, CharacterType::Letter)
    );
    assert_eq!(
        CharacterInfo::get_letter_info('\u{210E}'),
        letter(7, false, StyledLetter::Serif, LetterStyle::Italic, CharacterType::Letter)
    );
    assert_eq!(
        CharacterInfo::get_letter_info('\u{3F4}'),
        letter(17, true, StyledLetter::Serif, LetterStyle::Normal, CharacterType::Greek)
    );
    assert_eq!(
        CharacterInfo::get_letter_info('\u{2207}'),
        letter(25, true, StyledLetter::Serif, LetterStyle::Normal, CharacterType::Greek)
    );
    assert_eq!(
        CharacterInfo::get_letter_info('\u{2202}'),
        letter(25, false, StyledLetter::Serif, LetterStyle::Normal, CharacterType::Greek)
    );
}

#[test]
fn the_neighbours_of_a_run_are_not_read() {
    for ch in [
        '@', '[', '`', '{', '/', ':', '\u{390}', '\u{3AB}', '\u{3B0}', '\u{3CB}', '\u{3D0}',
        '\u{3D6}', '\u{3F5}', '\u{1D3FF}', '\u{1D6A4}', '\u{1D6A7}', '\u{1D6DC}', '\u{1D7C4}',
        '\u{1D7C9}', '\u{1D7CA}', '\u{1D7CD}', '\u{1D800}', '\u{2101}', '\u{2135}',
    ] {
        assert_eq!(CharacterInfo::get_letter_info(ch), CharacterInfo::Other(ch));
    }
}

#[test]
fn new_keeps_its_arguments() {
    let info = LetterInfo::new(3, true, StyledLetter::Fraktur, LetterStyle::Bold, CharacterType::Greek);
    assert_eq!(info.offset, 3);
    assert!(info.uppercase);
    assert_eq!(info.letter_type, StyledLetter::Fraktur);
    assert_eq!(info.letter_style, LetterStyle::Bold);
    assert_eq!(info.character_type, CharacterType::Greek);
}
