use vstd::prelude::*;
use vstd::string::*;
use vstd::utf8::{is_ascii_chars, is_ascii_chars_encode_utf8};
use crate::game::identifier::ascii_upper;

verus! {

/// The choice that an input stands for: the input is a single ASCII
/// character, and the choice is its capital, the first of `valid_chars`
/// that equals it.
pub open spec fn choice(input: Seq<char>, valid_chars: Seq<char>) -> Option<char> {
    if input.len() == 1 && is_ascii_chars(input) && valid_chars.contains(ascii_upper(input[0])) {
        Some(ascii_upper(input[0]))
    } else {
        None
    }
}

/// Matches what the user typed against the characters to choose from.
///
/// The first argument is the input, the second an array of valid uppercase
/// characters to choose from. The input is matched without regard to case.
///
/// The function returns the chosen character, if the input is one.
pub fn match_char(input: &str, valid_chars: &[char]) -> (r: Option<char>)
    ensures
        r == choice(input@, valid_chars@),
{
    let ascii = input.is_ascii();
    proof {
        if ascii {
            is_ascii_chars_encode_utf8(input@);
        }
    }
    let bytes = input.as_bytes();
    if bytes.len() != 1 || !ascii {
        return None;
    }
    let byte: u8 = bytes[0];
    let upper: u8 = if byte >= 97 && byte <= 122 {
        byte - 32
    } else {
        byte
    };
    let wanted: char = upper as char;
    assert(wanted == ascii_upper(input@[0]));
    let mut i: usize = 0;
    while i < valid_chars.len()
        invariant
            i <= valid_chars@.len(),
            wanted == ascii_upper(input@[0]),
            input@.len() == 1,
            is_ascii_chars(input@),
            forall|k: int| 0 <= k < i ==> valid_chars@[k] != wanted,
        decreases valid_chars@.len() - i,
    {
        if valid_chars[i] == wanted {
            assert(valid_chars@[i as int] == wanted);
            return Some(wanted);
        }
        i += 1;
    }
    None
}

} // verus!
