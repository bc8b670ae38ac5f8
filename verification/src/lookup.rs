use vstd::prelude::*;
use crate::kinds::{CharacterType, LetterStyle, LetterTypeError, StyledLetter};
use crate::registry::{base_of, code_to_char, is_scalar_value, override_char, Bases};

verus! {

/// Whether the offsets stand in strictly ascending order.
pub open spec fn ascending(indices: Seq<usize>) -> bool {
    forall|i: int, j: int| 0 <= i < j < indices.len() ==> indices[i] < indices[j]
}

/// Whether two lists of equal length hold, pair by pair and in ascending
/// order of offset, every override of one style and case, and nothing else.
pub open spec fn lists_overrides(
    indices: Seq<usize>,
    chars: Seq<char>,
    family: StyledLetter,
    category: CharacterType,
    emphasis: LetterStyle,
    uppercase: bool,
) -> bool {
    &&& indices.len() == chars.len()
    &&& ascending(indices)
    &&& forall|i: int|
        #![trigger indices[i]]
        #![trigger chars[i]]
        0 <= i < indices.len() ==> override_char(
            family,
            category,
            emphasis,
            uppercase,
            indices[i],
        ) == Some(chars[i])
    &&& forall|offset: usize|
        (#[trigger] override_char(family, category, emphasis, uppercase, offset)) is Some
            ==> indices.contains(offset)
}

/// The place of an offset in an ascending list, found by halving.
pub fn find_offset(indices: &Vec<usize>, offset: usize) -> (r: Option<usize>)
    requires
        ascending(indices@),
    ensures
        match r {
            Some(k) => k < indices.len() && indices[k as int] == offset,
            None => !indices@.contains(offset),
        },
{
    let mut low: usize = 0;
    let mut high: usize = indices.len();
    while low < high
        invariant
            low <= high <= indices.len(),
            ascending(indices@),
            forall|i: int| 0 <= i < low ==> indices[i] < offset,
            forall|i: int| high <= i < indices.len() ==> offset < indices[i],
        decreases high - low,
    {
        let mid: usize = low + (high - low) / 2;
        let found: usize = indices[mid];
        if found == offset {
            return Some(mid);
        } else if found < offset {
            low = mid + 1;
        } else {
            high = mid;
        }
    }
    None
}

/// The first place of a character in a list.
pub fn find_char(chars: &Vec<char>, ch: char) -> (r: Option<usize>)
    ensures
        match r {
            Some(k) => k < chars.len() && chars[k as int] == ch && forall|i: int|
                0 <= i < k ==> chars[i] != ch,
            None => !chars@.contains(ch),
        },
{
    let mut k: usize = 0;
    while k < chars.len()
        invariant
            k <= chars.len(),
            forall|i: int| 0 <= i < k ==> chars[i] != ch,
        decreases chars.len() - k,
    {
        if chars[k] == ch {
            return Some(k);
        }
        k = k + 1;
    }
    None
}

/// The character that stands at an offset behind the base of its case.
pub fn based_char(bases: Bases, uppercase: bool, offset: usize) -> (r: Result<
    char,
    LetterTypeError,
>)
    requires
        base_of(bases, uppercase) + offset <= u32::MAX,
    ensures
        is_scalar_value(base_of(bases, uppercase) + offset) ==> r == Ok::<char, LetterTypeError>(
            (base_of(bases, uppercase) + offset) as char,
        ),
        !is_scalar_value(base_of(bases, uppercase) + offset) ==> r == Err::<char, LetterTypeError>(
            LetterTypeError::InvalidCodeError((base_of(bases, uppercase) + offset) as u32),
        ),
{
    let base: u32 = if uppercase {
        bases.0
    } else {
        bases.1
    };
    code_to_char(base + offset as u32)
}

} // verus!
