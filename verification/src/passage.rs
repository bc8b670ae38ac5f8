use vstd::prelude::*;
use vstd::std_specs::iter::IteratorSpec;
use vstd::string::*;
use crate::classify::converted;
use crate::convert;
use crate::kinds::{LetterStyle, LetterTypeError, StyledLetter};
use crate::laws::lemma_text_fails_only_unsupported;

verus! {

/// `String::push` of the standard library, not proved here: it appends the
/// character to the end of the string.
pub assume_specification[ String::push ](s: &mut String, ch: char)
    ensures
        final(s)@ == old(s)@.push(ch),
;

/// The characters of a text that can be restyled, each restyled, in the
/// order of the text.
pub open spec fn converted_text(
    text: Seq<char>,
    family: StyledLetter,
    emphasis: LetterStyle,
) -> Seq<char>
    decreases text.len(),
{
    if text.len() == 0 {
        Seq::empty()
    } else {
        let before = converted_text(text.drop_last(), family, emphasis);
        match converted(text.last(), family, emphasis) {
            Ok(ch) => before.push(ch),
            Err(_) => before,
        }
    }
}

/// The characters of a text that cannot be restyled, each with the reason,
/// in the order of the text.
pub open spec fn failures(text: Seq<char>, family: StyledLetter, emphasis: LetterStyle) -> Seq<
    (char, LetterTypeError),
>
    decreases text.len(),
{
    if text.len() == 0 {
        Seq::empty()
    } else {
        let before = failures(text.drop_last(), family, emphasis);
        match converted(text.last(), family, emphasis) {
            Ok(_) => before,
            Err(e) => before.push((text.last(), e)),
        }
    }
}

/// Restyles a text character by character. A character that cannot be
/// written in the requested typeface and emphasis is left out of the result
/// and reported with the reason, which is always that the combination does
/// not exist; the others keep their order.
pub fn convert_text(text: &str, letter_type: &StyledLetter, letter_style: &LetterStyle) -> (r: (
    String,
    Vec<(char, LetterTypeError)>,
))
    ensures
        r.0@ == converted_text(text@, *letter_type, *letter_style),
        r.1@ == failures(text@, *letter_type, *letter_style),
        forall|i: int| 0 <= i < r.1@.len() ==> (#[trigger] r.1@[i]).1.is_unsupported(),
{
    let mut res = String::new();
    let mut failed: Vec<(char, LetterTypeError)> = Vec::new();
    let mut chars = text.chars();
    let ghost mut done: Seq<char> = Seq::empty();
    proof {
        broadcast use group_string_axioms;

        assert(done + chars.remaining() =~= text@);
    }
    loop
        invariant
            chars.obeys_prophetic_iter_laws(),
            chars.decrease() is Some,
            done + chars.remaining() == text@,
            res@ == converted_text(done, *letter_type, *letter_style),
            failed@ == failures(done, *letter_type, *letter_style),
        decreases chars.decrease()->0,
    {
        let next = chars.next();
        proof {
            broadcast use group_string_axioms;

        }
        match next {
            None => {
                proof {
                    assert(done =~= text@);
                    assert forall|i: int| 0 <= i < failed@.len() implies (
                    #[trigger] failed@[i]).1.is_unsupported() by {
                        lemma_text_fails_only_unsupported(text@, *letter_type, *letter_style, i);
                    }
                }
                return (res, failed);
            },
            Some(ch) => {
                proof {
                    let longer = done.push(ch);
                    assert(longer.drop_last() =~= done);
                    assert(longer.last() == ch);
                    assert(longer + chars.remaining() =~= text@);
                    done = longer;
                }
                match convert(ch, letter_type, letter_style) {
                    Ok(styled) => {
                        res.push(styled);
                    },
                    Err(e) => {
                        failed.push((ch, e));
                    },
                }
            },
        }
    }
}

} // verus!
