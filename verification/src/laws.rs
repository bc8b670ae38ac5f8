use vstd::prelude::*;
use crate::classify::{
    category_info,
    classified,
    converted,
    describes,
    in_category,
    letter_info,
    override_info,
    range_info,
    reads_run,
    run_reading,
    LetterInfo,
};
use crate::kinds::{CharacterType, LetterStyle, LetterTypeError, StyledLetter};
use crate::passage::{converted_text, failures};
use crate::registry::{
    alphabet_len,
    base_of,
    encoded,
    has_table,
    is_scalar_value,
    override_char,
    range_len,
    slot_for,
};

verus! {

/// Every code point that a base and an offset within its run give is a
/// Unicode scalar value: no entry of the registry leads to an invalid
/// character.
pub proof fn lemma_registry_codes_are_scalar(
    family: StyledLetter,
    category: CharacterType,
    emphasis: LetterStyle,
    uppercase: bool,
    offset: usize,
)
    requires
        slot_for(family, category, emphasis) is Some,
        offset < range_len(category, uppercase),
    ensures
        is_scalar_value(base_of(slot_for(family, category, emphasis)->0, uppercase) + offset),
{
}

/// An override stands only where the style has bases, and it is never the
/// character that base plus offset would have given.
pub proof fn lemma_override_differs_from_base(
    family: StyledLetter,
    category: CharacterType,
    emphasis: LetterStyle,
    uppercase: bool,
    offset: usize,
)
    requires
        override_char(family, category, emphasis, uppercase, offset) is Some,
    ensures
        slot_for(family, category, emphasis) is Some,
        override_char(family, category, emphasis, uppercase, offset)->0 as int != base_of(
            slot_for(family, category, emphasis)->0,
            uppercase,
        ) + offset,
{
}

/// The two views of the override table agree within the alphabets: a
/// character is read as an override with some description exactly if that
/// description, at an offset of its alphabet, is written with this
/// character.
pub proof fn lemma_override_tables_agree(ch: char, info: LetterInfo)
    ensures
        override_info(ch) == Some(info) <==> info.offset < alphabet_len(info.character_type)
            && override_char(
            info.letter_type,
            info.character_type,
            info.letter_style,
            info.uppercase,
            info.offset,
        ) == Some(ch),
{
}

/// The runs of a category do not overlap: a code point has no reading as a
/// member of a run but the one that the category gives it.
pub proof fn lemma_run_is_read(code: int, category: CharacterType, info: LetterInfo)
    requires
        reads_run(code, category, info),
    ensures
        category_info(code, category) == Some(info),
{
    match category {
        CharacterType::Letter => lemma_letter_run_is_read(code, info),
        CharacterType::Greek => lemma_greek_run_is_read(code, info),
        CharacterType::Digit => lemma_digit_run_is_read(code, info),
        CharacterType::Other => {},
    }
}

proof fn lemma_letter_run_is_read(code: int, info: LetterInfo)
    requires
        reads_run(code, CharacterType::Letter, info),
    ensures
        category_info(code, CharacterType::Letter) == Some(info),
{
}

proof fn lemma_greek_run_is_read(code: int, info: LetterInfo)
    requires
        reads_run(code, CharacterType::Greek, info),
    ensures
        category_info(code, CharacterType::Greek) == Some(info),
{
}

proof fn lemma_digit_run_is_read(code: int, info: LetterInfo)
    requires
        reads_run(code, CharacterType::Digit, info),
    ensures
        category_info(code, CharacterType::Digit) == Some(info),
{
}

/// The reading that a category gives a code point of its runs describes it.
pub proof fn lemma_run_reading_reads_run(code: int, category: CharacterType)
    requires
        in_category(code, category),
    ensures
        reads_run(code, category, run_reading(code, category)),
{
}

/// The runs of two categories do not overlap.
pub proof fn lemma_categories_are_disjoint(code: int, one: CharacterType, other: CharacterType)
    requires
        in_category(code, one),
        in_category(code, other),
    ensures
        one == other,
{
}

/// No override lies in a run of the registry.
pub proof fn lemma_overrides_lie_outside_runs(ch: char)
    requires
        override_info(ch) is Some,
    ensures
        range_info(ch) is None,
{
}

/// Classification inverts the registry: a character is read with some
/// description exactly if the registry writes that description with this
/// character. So no character has two readings, and none that the registry
/// writes goes unread.
pub proof fn lemma_classified_iff_described(ch: char, info: LetterInfo)
    ensures
        classified(ch) == Some(info) <==> describes(info, ch),
{
    let code = ch as int;
    lemma_override_tables_agree(ch, info);
    if override_info(ch) is Some {
        lemma_overrides_lie_outside_runs(ch);
    }
    if reads_run(code, info.character_type, info) {
        lemma_run_is_read(code, info.character_type, info);
        if in_category(code, CharacterType::Letter) {
            lemma_categories_are_disjoint(code, CharacterType::Letter, info.character_type);
        }
        if in_category(code, CharacterType::Greek) {
            lemma_categories_are_disjoint(code, CharacterType::Greek, info.character_type);
        }
        assert(range_info(ch) == Some(info));
    }
    if range_info(ch) == Some(info) {
        if in_category(code, CharacterType::Letter) {
            lemma_run_reading_reads_run(code, CharacterType::Letter);
        } else if in_category(code, CharacterType::Greek) {
            lemma_run_reading_reads_run(code, CharacterType::Greek);
        } else {
            lemma_run_reading_reads_run(code, CharacterType::Digit);
        }
    }
}

/// What a reading holds: a category other than `Other`, a style that the
/// registry has, an offset within the alphabet of its category and, for a
/// digit, the small case.
pub proof fn lemma_reading_is_valid(ch: char)
    requires
        classified(ch) is Some,
    ensures
        ({
            let info = classified(ch)->0;
            &&& info.character_type != CharacterType::Other
            &&& slot_for(info.letter_type, info.character_type, info.letter_style) is Some
            &&& info.offset < alphabet_len(info.character_type)
            &&& info.character_type == CharacterType::Digit ==> !info.uppercase
        }),
{
    let info = classified(ch)->0;
    lemma_classified_iff_described(ch, info);
    if !reads_run(ch as int, info.character_type, info) {
        lemma_override_differs_from_base(
            info.letter_type,
            info.character_type,
            info.letter_style,
            info.uppercase,
            info.offset,
        );
    }
}

/// The offset of every reading lies within the alphabet of its category.
pub proof fn lemma_offset_is_within_alphabet(ch: char)
    ensures
        classified(ch) matches Some(info) ==> info.offset < alphabet_len(info.character_type),
{
    if classified(ch) is Some {
        lemma_reading_is_valid(ch);
    }
}

/// Success of the encoder is owed exactly where the style exists for the
/// category and the offset lies within the alphabet. In particular the
/// first and the last offset of every alphabet resolve in every style that
/// the registry has.
pub proof fn lemma_encoded_is_ok_iff_supported(
    category: CharacterType,
    uppercase: bool,
    offset: usize,
    family: StyledLetter,
    emphasis: LetterStyle,
)
    ensures
        encoded(category, uppercase, offset, family, emphasis) is Ok <==> slot_for(
            family,
            category,
            emphasis,
        ) is Some && offset < alphabet_len(category),
{
    if override_char(family, category, emphasis, uppercase, offset) is Some {
        lemma_override_differs_from_base(family, category, emphasis, uppercase, offset);
    }
}

/// Each error of the encoder, with the inputs on which it comes: no table
/// for the category in the typeface; else an offset beyond the alphabet;
/// else no such emphasis in the table. An invalid code point never comes.
pub proof fn lemma_encoded_errors(
    category: CharacterType,
    uppercase: bool,
    offset: usize,
    family: StyledLetter,
    emphasis: LetterStyle,
)
    ensures
        ({
            let r = encoded(category, uppercase, offset, family, emphasis);
            &&& r == Err::<char, LetterTypeError>(LetterTypeError::InvalidTypeError) <==> !has_table(
                family,
                category,
            )
            &&& r is Err && r->Err_0 is ExceedLengthError <==> has_table(family, category) && offset
                >= alphabet_len(category)
            &&& r == Err::<char, LetterTypeError>(LetterTypeError::ExceedLengthError(offset))
                <==> has_table(family, category) && offset >= alphabet_len(category)
            &&& r == Err::<char, LetterTypeError>(LetterTypeError::InvalidStyleError) <==> has_table(
                family,
                category,
            ) && offset < alphabet_len(category) && slot_for(family, category, emphasis) is None
            &&& !(r is Err && r->Err_0 is InvalidCodeError)
        }),
{
    if override_char(family, category, emphasis, uppercase, offset) is Some {
        lemma_override_differs_from_base(family, category, emphasis, uppercase, offset);
    }
}

/// What the encoder writes is read back as what was written: the same
/// category, case and offset, in the typeface and emphasis that were asked
/// for. Digits have no case and are read as small forms.
pub proof fn lemma_encoded_is_read_back(
    category: CharacterType,
    uppercase: bool,
    offset: usize,
    family: StyledLetter,
    emphasis: LetterStyle,
)
    requires
        encoded(category, uppercase, offset, family, emphasis) is Ok,
        category == CharacterType::Digit ==> !uppercase,
    ensures
        classified(encoded(category, uppercase, offset, family, emphasis)->Ok_0) == Some(
            letter_info(offset, uppercase, family, emphasis, category),
        ),
{
    let out = encoded(category, uppercase, offset, family, emphasis)->Ok_0;
    let info = letter_info(offset, uppercase, family, emphasis, category);
    lemma_encoded_is_ok_iff_supported(category, uppercase, offset, family, emphasis);
    if override_char(family, category, emphasis, uppercase, offset) is None {
        lemma_registry_codes_are_scalar(family, category, emphasis, uppercase, offset);
        assert(reads_run(out as int, category, info));
    }
    lemma_classified_iff_described(out, info);
}

/// Round trip: where a character is read and restyling it succeeds, the
/// result is read as the same category, case and offset, now in the
/// typeface and emphasis that were asked for.
pub proof fn lemma_round_trip(ch: char, family: StyledLetter, emphasis: LetterStyle)
    requires
        classified(ch) is Some,
        converted(ch, family, emphasis) is Ok,
    ensures
        ({
            let info = classified(ch)->0;
            classified(converted(ch, family, emphasis)->Ok_0) == Some(
                letter_info(info.offset, info.uppercase, family, emphasis, info.character_type),
            )
        }),
{
    let info = classified(ch)->0;
    lemma_reading_is_valid(ch);
    lemma_encoded_is_read_back(info.character_type, info.uppercase, info.offset, family, emphasis);
}

/// Restyling twice is restyling once: where the first step succeeds, the
/// second gives what it would have given on the character itself.
pub proof fn lemma_restyling_composes(
    ch: char,
    family: StyledLetter,
    emphasis: LetterStyle,
    next_family: StyledLetter,
    next_emphasis: LetterStyle,
)
    requires
        converted(ch, family, emphasis) is Ok,
    ensures
        converted(converted(ch, family, emphasis)->Ok_0, next_family, next_emphasis) == converted(
            ch,
            next_family,
            next_emphasis,
        ),
{
    if classified(ch) is Some {
        lemma_round_trip(ch, family, emphasis);
    }
}

/// Pass-through: a character that is not read comes back unchanged,
/// whatever typeface and emphasis are asked for.
pub proof fn lemma_pass_through(ch: char, family: StyledLetter, emphasis: LetterStyle)
    requires
        classified(ch) is None,
    ensures
        converted(ch, family, emphasis) == Ok::<char, LetterTypeError>(ch),
{
}

/// Restyling a character never reports an offset beyond the alphabet: that
/// error is left to readings that were made by hand.
pub proof fn lemma_convert_never_exceeds(ch: char, family: StyledLetter, emphasis: LetterStyle)
    ensures
        !(converted(ch, family, emphasis) matches Err(e) && e is ExceedLengthError),
{
    lemma_convert_fails_only_unsupported(ch, family, emphasis);
}

/// Restyling a character fails only where the requested typeface and
/// emphasis do not exist for its category: with `InvalidTypeError` where
/// the category has no table in the typeface, with `InvalidStyleError`
/// where the table lacks the emphasis, and with no other error.
pub proof fn lemma_convert_fails_only_unsupported(
    ch: char,
    family: StyledLetter,
    emphasis: LetterStyle,
)
    ensures
        converted(ch, family, emphasis) matches Err(e) ==> e.is_unsupported(),
        converted(ch, family, emphasis) is Err <==> classified(ch) is Some && slot_for(
            family,
            classified(ch)->0.character_type,
            emphasis,
        ) is None,
{
    if classified(ch) is Some {
        let info = classified(ch)->0;
        lemma_reading_is_valid(ch);
        lemma_encoded_is_ok_iff_supported(
            info.character_type,
            info.uppercase,
            info.offset,
            family,
            emphasis,
        );
        lemma_encoded_errors(info.character_type, info.uppercase, info.offset, family, emphasis);
    }
}

/// Every failure of a text reports a combination that does not exist: none
/// reports an offset beyond the alphabet or an invalid code point.
pub proof fn lemma_text_fails_only_unsupported(
    text: Seq<char>,
    family: StyledLetter,
    emphasis: LetterStyle,
    i: int,
)
    requires
        0 <= i < failures(text, family, emphasis).len(),
    ensures
        failures(text, family, emphasis)[i].1.is_unsupported(),
    decreases text.len(),
{
    if text.len() > 0 {
        let before = failures(text.drop_last(), family, emphasis);
        if i < before.len() {
            lemma_text_fails_only_unsupported(text.drop_last(), family, emphasis, i);
        } else {
            lemma_convert_fails_only_unsupported(text.last(), family, emphasis);
        }
    }
}

/// Every character of a text is accounted for once: it stands restyled in
/// the result or it is among the failures.
pub proof fn lemma_text_is_accounted_for(
    text: Seq<char>,
    family: StyledLetter,
    emphasis: LetterStyle,
)
    ensures
        converted_text(text, family, emphasis).len() + failures(text, family, emphasis).len()
            == text.len(),
    decreases text.len(),
{
    if text.len() > 0 {
        lemma_text_is_accounted_for(text.drop_last(), family, emphasis);
    }
}

/// A text none of whose characters is read comes back unchanged, without
/// failures.
pub proof fn lemma_unread_text_passes_through(
    text: Seq<char>,
    family: StyledLetter,
    emphasis: LetterStyle,
)
    requires
        forall|i: int| 0 <= i < text.len() ==> classified(#[trigger] text[i]) is None,
    ensures
        converted_text(text, family, emphasis) == text,
        failures(text, family, emphasis).len() == 0,
    decreases text.len(),
{
    if text.len() > 0 {
        lemma_unread_text_passes_through(text.drop_last(), family, emphasis);
        assert(text.drop_last().push(text.last()) =~= text);
    } else {
        assert(converted_text(text, family, emphasis) =~= text);
    }
}

} // verus!
