use vstd::prelude::*;
use vstd::string::*;
use crate::kinds::{LetterStyle, LetterTypeError, StyledLetter};

verus! {

/// The character that stands for a digit below sixteen, small letters for
/// ten and above.
pub open spec fn digit_char(digit: nat) -> char {
    if digit == 0 {
        '0'
    } else if digit == 1 {
        '1'
    } else if digit == 2 {
        '2'
    } else if digit == 3 {
        '3'
    } else if digit == 4 {
        '4'
    } else if digit == 5 {
        '5'
    } else if digit == 6 {
        '6'
    } else if digit == 7 {
        '7'
    } else if digit == 8 {
        '8'
    } else if digit == 9 {
        '9'
    } else if digit == 10 {
        'a'
    } else if digit == 11 {
        'b'
    } else if digit == 12 {
        'c'
    } else if digit == 13 {
        'd'
    } else if digit == 14 {
        'e'
    } else {
        'f'
    }
}

/// A number written in decimal, most significant digit first, without
/// leading zeros; zero is one digit.
pub open spec fn decimal_text(n: nat) -> Seq<char>
    decreases n,
{
    if n < 10 {
        seq![digit_char(n)]
    } else {
        decimal_text(n / 10) + seq![digit_char(n % 10)]
    }
}

/// A number written in hexadecimal with small letters, most significant
/// digit first, without leading zeros; zero is one digit.
pub open spec fn hex_text(n: nat) -> Seq<char>
    decreases n,
{
    if n < 16 {
        seq![digit_char(n)]
    } else {
        hex_text(n / 16) + seq![digit_char(n % 16)]
    }
}

/// A code written in hexadecimal behind `0x`, with at least two digits.
pub open spec fn code_text(code: u32) -> Seq<char> {
    if code < 16 {
        "0x0"@ + hex_text(code as nat)
    } else {
        "0x"@ + hex_text(code as nat)
    }
}

fn digit_str(digit: usize) -> (s: &'static str)
    requires
        digit < 16,
    ensures
        s@ == seq![digit_char(digit as nat)],
{
    proof {
        reveal_strlit("0");
        reveal_strlit("1");
        reveal_strlit("2");
        reveal_strlit("3");
        reveal_strlit("4");
        reveal_strlit("5");
        reveal_strlit("6");
        reveal_strlit("7");
        reveal_strlit("8");
        reveal_strlit("9");
        reveal_strlit("a");
        reveal_strlit("b");
        reveal_strlit("c");
        reveal_strlit("d");
        reveal_strlit("e");
        reveal_strlit("f");
    }
    let s = if digit == 0 {
        "0"
    } else if digit == 1 {
        "1"
    } else if digit == 2 {
        "2"
    } else if digit == 3 {
        "3"
    } else if digit == 4 {
        "4"
    } else if digit == 5 {
        "5"
    } else if digit == 6 {
        "6"
    } else if digit == 7 {
        "7"
    } else if digit == 8 {
        "8"
    } else if digit == 9 {
        "9"
    } else if digit == 10 {
        "a"
    } else if digit == 11 {
        "b"
    } else if digit == 12 {
        "c"
    } else if digit == 13 {
        "d"
    } else if digit == 14 {
        "e"
    } else {
        "f"
    };
    assert(s@ =~= seq![digit_char(digit as nat)]);
    s
}

/// Writes a number in decimal.
pub fn decimal_string(n: usize) -> (s: String)
    ensures
        s@ == decimal_text(n as nat),
    decreases n,
{
    if n < 10 {
        String::from_str(digit_str(n))
    } else {
        let mut s = decimal_string(n / 10);
        s.append(digit_str(n % 10));
        s
    }
}

/// Writes a number in hexadecimal.
pub fn hex_string(n: u32) -> (s: String)
    ensures
        s@ == hex_text(n as nat),
    decreases n,
{
    if n < 16 {
        String::from_str(digit_str(n as usize))
    } else {
        let mut s = hex_string(n / 16);
        s.append(digit_str((n % 16) as usize));
        s
    }
}

impl StyledLetter {
    /// The name of the typeface.
    pub open spec fn name(self) -> Seq<char> {
        match self {
            StyledLetter::Serif => "serif"@,
            StyledLetter::SansSerif => "sans_serif"@,
            StyledLetter::Script => "script"@,
            StyledLetter::Fraktur => "fraktur"@,
            StyledLetter::MonoSpace => "mono"@,
            StyledLetter::DoubleStruck => "double_struck"@,
        }
    }

    pub fn to_string(&self) -> (s: String)
        ensures
            s@ == self.name(),
    {
        match *self {
            StyledLetter::Serif => String::from_str("serif"),
            StyledLetter::SansSerif => String::from_str("sans_serif"),
            StyledLetter::Script => String::from_str("script"),
            StyledLetter::Fraktur => String::from_str("fraktur"),
            StyledLetter::MonoSpace => String::from_str("mono"),
            StyledLetter::DoubleStruck => String::from_str("double_struck"),
        }
    }
}

impl LetterStyle {
    /// The name of the emphasis.
    pub open spec fn name(self) -> Seq<char> {
        match self {
            LetterStyle::Bold => "bold"@,
            LetterStyle::BoldItalic => "bold_italic"@,
            LetterStyle::Italic => "italic"@,
            LetterStyle::Normal => "normal"@,
        }
    }

    pub fn to_string(&self) -> (s: String)
        ensures
            s@ == self.name(),
    {
        match *self {
            LetterStyle::Bold => String::from_str("bold"),
            LetterStyle::BoldItalic => String::from_str("bold_italic"),
            LetterStyle::Italic => String::from_str("italic"),
            LetterStyle::Normal => String::from_str("normal"),
        }
    }
}

impl LetterTypeError {
    /// The message of the error.
    pub open spec fn message(self) -> Seq<char> {
        match self {
            LetterTypeError::InvalidCodeError(code) => "invalid code point "@ + code_text(code),
            LetterTypeError::ExceedLengthError(index) => decimal_text(index as nat)
                + " exceed length"@,
            LetterTypeError::InvalidStyleError => "invalid style"@,
            LetterTypeError::InvalidTypeError => "invalid type"@,
        }
    }

    pub fn to_string(&self) -> (s: String)
        ensures
            s@ == self.message(),
    {
        match *self {
            LetterTypeError::InvalidCodeError(code) => {
                let mut s = String::from_str("invalid code point ");
                if code < 16 {
                    s.append("0x0");
                } else {
                    s.append("0x");
                }
                let digits = hex_string(code);
                s.append(digits.as_str());
                proof {
                    assert(s@ =~= self.message());
                }
                s
            },
            LetterTypeError::ExceedLengthError(index) => {
                let mut s = decimal_string(index);
                s.append(" exceed length");
                s
            },
            LetterTypeError::InvalidStyleError => String::from_str("invalid style"),
            LetterTypeError::InvalidTypeError => String::from_str("invalid type"),
        }
    }
}

} // verus!
