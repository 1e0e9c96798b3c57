use vstd::prelude::*;

use crate::text::string_of;

verus! {

/// Number of letters in the table: 'a' through 'z'.
pub const ALPHABET_LEN: usize = 26;

/// The phoneme sequence of each letter, in alphabetical order.
pub open spec fn phoneme_table() -> Seq<Seq<char>> {
    seq![
        seq!['r', 'a'],
        seq!['r', 'h'],
        seq!['o', 'a'],
        seq!['w', 'a'],
        seq!['w', 'o'],
        seq!['w', 'w'],
        seq!['r', 'r'],
        seq!['a', 'c'],
        seq!['a', 'h'],
        seq!['s', 'h'],
        seq!['o', 'r'],
        seq!['a', 'n'],
        seq!['s', 'c'],
        seq!['w', 'h'],
        seq!['o', 'o'],
        seq!['a', 'k'],
        seq!['r', 'q'],
        seq!['r', 'c'],
        seq!['c'],
        seq!['a', 'o'],
        seq!['h', 'u'],
        seq!['h', 'o'],
        seq!['o', 'h'],
        seq!['k'],
        seq!['r', 'o'],
        seq!['u', 'f'],
    ]
}

/// The phoneme sequence for the letter at offset `i` of the alphabet.
pub open spec fn phoneme(i: int) -> Seq<char> {
    phoneme_table()[i]
}

/// An ASCII lowercase letter, 'a' through 'z'.
pub open spec fn is_ascii_lower(c: char) -> bool {
    'a' <= c && c <= 'z'
}

/// An ASCII uppercase letter, 'A' through 'Z'.
pub open spec fn is_ascii_upper(c: char) -> bool {
    'A' <= c && c <= 'Z'
}

/// Offset in the alphabet of an ASCII letter of either case.
pub open spec fn letter_index(c: char) -> int {
    if is_ascii_lower(c) {
        c as int - 'a' as int
    } else {
        c as int - 'A' as int
    }
}

/// The table's entry for `c`, matched without regard to case.
pub open spec fn lookup(c: char) -> Option<Seq<char>> {
    if is_ascii_lower(c) || is_ascii_upper(c) {
        Some(phoneme(letter_index(c)))
    } else {
        None
    }
}

/// Every entry is non-empty and starts with a lowercase ASCII letter.
pub proof fn lemma_phoneme_shape(i: int)
    requires
        0 <= i < ALPHABET_LEN,
    ensures
        phoneme(i).len() >= 1,
        is_ascii_lower(phoneme(i)[0]),
{
}

/// A fresh copy of the table entry at offset `i`.
fn phoneme_string(i: usize) -> (r: String)
    requires
        i < ALPHABET_LEN,
    ensures
        r@ == phoneme(i as int),
{
    match i {
        0 => string_of(&['r', 'a']),
        1 => string_of(&['r', 'h']),
        2 => string_of(&['o', 'a']),
        3 => string_of(&['w', 'a']),
        4 => string_of(&['w', 'o']),
        5 => string_of(&['w', 'w']),
        6 => string_of(&['r', 'r']),
        7 => string_of(&['a', 'c']),
        8 => string_of(&['a', 'h']),
        9 => string_of(&['s', 'h']),
        10 => string_of(&['o', 'r']),
        11 => string_of(&['a', 'n']),
        12 => string_of(&['s', 'c']),
        13 => string_of(&['w', 'h']),
        14 => string_of(&['o', 'o']),
        15 => string_of(&['a', 'k']),
        16 => string_of(&['r', 'q']),
        17 => string_of(&['r', 'c']),
        18 => string_of(&['c']),
        19 => string_of(&['a', 'o']),
        20 => string_of(&['h', 'u']),
        21 => string_of(&['h', 'o']),
        22 => string_of(&['o', 'h']),
        23 => string_of(&['k']),
        24 => string_of(&['r', 'o']),
        _ => string_of(&['u', 'f']),
    }
}

/// Looks up the replacement of a letter, ignoring its case.
pub fn find_translation(needle: char) -> (r: Option<String>)
    ensures
        r is Some <==> lookup(needle) is Some,
        r is Some ==> r->0@ == lookup(needle)->0,
{
    let code = needle as u32;
    if 'a' <= needle && needle <= 'z' {
        Some(phoneme_string((code - 'a' as u32) as usize))
    } else if 'A' <= needle && needle <= 'Z' {
        Some(phoneme_string((code - 'A' as u32) as usize))
    } else {
        None
    }
}

} // verus!
