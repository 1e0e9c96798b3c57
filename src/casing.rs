use vstd::prelude::*;

use vstd::string::StrSliceExecFns;
use vstd::string::StringExecFns;

verus! {

/// The full Unicode uppercase mapping of a character, which may be more
/// than one character long.
pub uninterp spec fn upper_of(c: char) -> Seq<char>;

/// The uppercase form of an ASCII lowercase letter; any other character is
/// left as it is.
pub open spec fn ascii_upper(c: char) -> char {
    if 'a' <= c && c <= 'z' {
        ((c as u32) - 32) as char
    } else {
        c
    }
}

/// `s` with its first character replaced by that character's uppercase form.
pub open spec fn capitalized(s: Seq<char>) -> Seq<char> {
    if s.len() == 0 {
        seq![]
    } else {
        upper_of(s[0]) + s.drop_first()
    }
}

/// `s` with its first character put through ASCII uppercasing.
pub open spec fn ascii_capitalized(s: Seq<char>) -> Seq<char> {
    if s.len() == 0 {
        seq![]
    } else {
        seq![ascii_upper(s[0])] + s.drop_first()
    }
}

/// Relies on `char::to_uppercase`: the result depends on the character alone,
/// and an ASCII lowercase letter maps to its ASCII uppercase counterpart.
#[verifier::external_body]
fn uppercase(c: char) -> (r: String)
    ensures
        r@ == upper_of(c),
        'a' <= c && c <= 'z' ==> r@ == seq![ascii_upper(c)],
{
    c.to_uppercase().collect::<String>()
}

/// Uppercases the first character of `s`; the empty string stays empty.
pub fn capitalize(s: &str) -> (r: String)
    ensures
        r@ == capitalized(s@),
        s@.len() > 0 && 'a' <= s@[0] && s@[0] <= 'z' ==> r@ == ascii_capitalized(s@),
{
    let n = s.unicode_len();
    if n == 0 {
        return String::new();
    }
    let first = s.get_char(0);
    let rest = s.substring_char(1, n);
    let mut r = uppercase(first);
    r.append(rest);
    assert(rest@ =~= s@.drop_first());
    r
}

} // verus!
