//! Character-level helpers shared by the validation and formatting code:
//! the white-space test behind "empty after trimming", decimal digit
//! characters, and a small trusted append for `String`.

use vstd::prelude::*;

verus! {

/// The characters that trimming removes: the Unicode `White_Space` set,
/// written here by code point.
pub open spec fn is_space_char(c: char) -> bool {
    c as int == 0x09 || c as int == 0x0a || c as int == 0x0b || c as int == 0x0c
        || c as int == 0x0d || c as int == 0x20 || c as int == 0x85 || c as int == 0xa0
        || c as int == 0x1680 || (0x2000 <= c as int && c as int <= 0x200a)
        || c as int == 0x2028 || c as int == 0x2029 || c as int == 0x202f
        || c as int == 0x205f || c as int == 0x3000
}

/// A text is blank when every character is white space, so that trimming
/// would leave nothing.
pub open spec fn is_blank(s: Seq<char>) -> bool {
    forall|i: int| 0 <= i < s.len() ==> is_space_char(#[trigger] s[i])
}

/// Decides `is_space_char` for one character.
fn is_space(c: char) -> (r: bool)
    ensures
        r == is_space_char(c),
{
    let u = c as u32;
    u == 0x09 || u == 0x0a || u == 0x0b || u == 0x0c || u == 0x0d || u == 0x20 || u == 0x85
        || u == 0xa0 || u == 0x1680 || (0x2000 <= u && u <= 0x200a) || u == 0x2028
        || u == 0x2029 || u == 0x202f || u == 0x205f || u == 0x3000
}

/// Decides whether a text is blank (empty, or white space only).
pub fn str_is_blank(s: &str) -> (r: bool)
    ensures
        r == is_blank(s@),
{
    let len: usize = s.unicode_len();
    let mut i: usize = 0;
    while i < len
        invariant
            len == s@.len(),
            i <= len,
            forall|j: int| 0 <= j < i ==> is_space_char(#[trigger] s@[j]),
        decreases len - i,
    {
        let c = s.get_char(i);
        if !is_space(c) {
            return false;
        }
        i = i + 1;
    }
    true
}

/// The decimal digit character for a value below ten.
pub open spec fn digit_char(d: int) -> char {
    seq!['0', '1', '2', '3', '4', '5', '6', '7', '8', '9'][d]
}

/// Renders one decimal digit as its character.
pub(crate) fn digit(d: u8) -> (c: char)
    requires
        d < 10,
    ensures
        c == digit_char(d as int),
{
    match d {
        0 => '0',
        1 => '1',
        2 => '2',
        3 => '3',
        4 => '4',
        5 => '5',
        6 => '6',
        7 => '7',
        8 => '8',
        _ => '9',
    }
}

/// Relies on `String::push`: appends the given character to the end of the
/// string.
#[verifier::external_body]
pub(crate) fn push_char(s: &mut String, c: char)
    ensures
        final(s)@ == old(s)@.push(c),
{
    s.push(c);
}

} // verus!
