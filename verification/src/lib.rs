//! Letters and digits in the styled alphabets of Unicode.
//!
//! A character is read as a letter or digit of some typeface and emphasis
//! ([`CharacterInfo::get_letter_info`]) and written anew in another
//! ([`LetterInfo::convert`]); [`convert`] does both for one character and
//! [`convert_text`] for a text. The tables behind both directions are in
//! [`registry`], and [`laws`] holds what is proved of them: what is written
//! is read back, what is not read passes through unchanged, and every style
//! that exists resolves at every offset of its alphabet.

use vstd::prelude::*;

pub mod classify;
pub mod digits;
pub mod greek;
pub mod kinds;
pub mod latin;
pub mod laws;
pub mod lookup;
pub mod passage;
pub mod registry;
pub mod text;

use crate::classify::converted;
use crate::laws::lemma_convert_fails_only_unsupported;

pub use crate::classify::{CharacterInfo, LetterInfo};
pub use crate::digits::{DigitDoubleStruckType, DigitMonoSpaceType, DigitSansSerifType, DigitType};
pub use crate::greek::{GreekSansSerifType, GreekType};
pub use crate::kinds::{CharacterType, LetterStyle, LetterTypeError, StyledLetter};
pub use crate::latin::{
    DoubleStruckType,
    FrakturType,
    MonoSpaceType,
    SansSerifType,
    ScriptType,
    SerifType,
    TypeStyle,
};
pub use crate::passage::convert_text;

verus! {

/// Restyles one character: a letter or digit of any known style is written
/// anew in the requested typeface and emphasis; every other character comes
/// back unchanged. The only failure is a typeface or emphasis that does not
/// exist for the character's category: an offset beyond the alphabet and an
/// invalid code point do not arise here.
pub fn convert(ch: char, letter_type: &StyledLetter, letter_style: &LetterStyle) -> (r: Result<
    char,
    LetterTypeError,
>)
    ensures
        r == converted(ch, *letter_type, *letter_style),
        r matches Err(e) ==> e.is_unsupported(),
{
    proof {
        lemma_convert_fails_only_unsupported(ch, *letter_type, *letter_style);
    }
    let character_info = CharacterInfo::get_letter_info(ch);
    match character_info {
        CharacterInfo::Letter(info) => info.convert(letter_type, letter_style),
        CharacterInfo::Other(not_supported_ch) => Ok(not_supported_ch),
    }
}

} // verus!
