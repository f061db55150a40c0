//! Character classes used by the reader: whitespace, ASCII digits, and the
//! two classes of the "Name" grammar, given as unions of inclusive
//! code-point ranges.

use vstd::prelude::*;

verus! {

/// Whitespace as the reader understands it: space, tab, or newline.
pub open spec fn is_space_char(c: char) -> bool {
    c == ' ' || c == '\t' || c == '\n'
}

/// An ASCII decimal digit, `'0'` (0x30) through `'9'` (0x39).
pub open spec fn is_digit_char(c: char) -> bool {
    0x30 <= c as u32 <= 0x39
}

/// The "start" class of the Name grammar: the code points allowed as the
/// first character of a name, a fixed union of inclusive ranges — the colon,
/// ASCII letters, the underscore, and a number of higher Unicode ranges.
pub open spec fn is_name_start_char(c: char) -> bool {
    ||| c as u32 == 0x3A  // ':'
    ||| 0x41 <= c as u32 <= 0x5A  // 'A'..='Z'
    ||| c as u32 == 0x5F  // '_'
    ||| 0x61 <= c as u32 <= 0x7A  // 'a'..='z'
    ||| 0xC0 <= c as u32 <= 0xD6
    ||| 0xD8 <= c as u32 <= 0xF6
    ||| 0xF8 <= c as u32 <= 0x2FF
    ||| 0x370 <= c as u32 <= 0x37D
    ||| 0x37F <= c as u32 <= 0x1FFF
    ||| 0x200C <= c as u32 <= 0x200D
    ||| 0x2070 <= c as u32 <= 0x218F
    ||| 0x2C00 <= c as u32 <= 0x2FEF
    ||| 0x3001 <= c as u32 <= 0xD7FF
    ||| 0xF900 <= c as u32 <= 0xFDCF
    ||| 0xFDF0 <= c as u32 <= 0xFFFD
    ||| 0x10000 <= c as u32 <= 0xEFFFF
}

/// The code points allowed in a name only after its first character:
/// hyphen, period, ASCII digits, the middle dot, and two small combining
/// and joining ranges.
pub open spec fn is_name_extra_char(c: char) -> bool {
    ||| c as u32 == 0x2D  // '-'
    ||| c as u32 == 0x2E  // '.'
    ||| 0x30 <= c as u32 <= 0x39  // '0'..='9'
    ||| c as u32 == 0xB7
    ||| 0x300 <= c as u32 <= 0x36F
    ||| 0x203F <= c as u32 <= 0x2040
}

/// The "continuation" class of the Name grammar: any start character, or a
/// character of the continuation-only class.
pub open spec fn is_name_char(c: char) -> bool {
    is_name_start_char(c) || is_name_extra_char(c)
}

/// Decides membership in the start class of the Name grammar.
pub fn check_name_start_char(c: char) -> (r: bool)
    ensures
        r == is_name_start_char(c),
{
    let u = c as u32;
    u == 0x3A || (0x41 <= u && u <= 0x5A) || u == 0x5F || (0x61 <= u && u <= 0x7A) || (0xC0 <= u
        && u <= 0xD6) || (0xD8 <= u && u <= 0xF6) || (0xF8 <= u && u <= 0x2FF) || (0x370 <= u && u
        <= 0x37D) || (0x37F <= u && u <= 0x1FFF) || (0x200C <= u && u <= 0x200D) || (0x2070 <= u
        && u <= 0x218F) || (0x2C00 <= u && u <= 0x2FEF) || (0x3001 <= u && u <= 0xD7FF) || (0xF900
        <= u && u <= 0xFDCF) || (0xFDF0 <= u && u <= 0xFFFD) || (0x10000 <= u && u <= 0xEFFFF)
}

/// Decides membership in the continuation-only class of the Name grammar.
pub fn check_name_extra_char(c: char) -> (r: bool)
    ensures
        r == is_name_extra_char(c),
{
    let u = c as u32;
    u == 0x2D || u == 0x2E || (0x30 <= u && u <= 0x39) || u == 0xB7 || (0x300 <= u && u <= 0x36F)
        || (0x203F <= u && u <= 0x2040)
}

/// Decides membership in the continuation class of the Name grammar.
pub fn check_name_char(c: char) -> (r: bool)
    ensures
        r == is_name_char(c),
{
    check_name_start_char(c) || check_name_extra_char(c)
}

} // verus!
