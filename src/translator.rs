use vstd::prelude::*;

use vstd::string::StringExecFns;

use crate::casing::{ascii_capitalized, capitalize};
use crate::phonemes::{
    find_translation,
    is_ascii_lower,
    is_ascii_upper,
    lemma_phoneme_shape,
    letter_index,
    lookup,
    phoneme,
};
use crate::text::push_char;

verus! {

/// What a single input character becomes: its table entry, with the first
/// character uppercased when the input letter is uppercase, or the character
/// itself when it has no entry.
pub open spec fn translated_char(c: char) -> Seq<char> {
    match lookup(c) {
        Some(rep) => if is_ascii_upper(c) {
            ascii_capitalized(rep)
        } else {
            rep
        },
        None => seq![c],
    }
}

/// The translation of a whole text: each character's piece, in order.
pub open spec fn translated(s: Seq<char>) -> Seq<char>
    decreases s.len(),
{
    if s.len() == 0 {
        seq![]
    } else {
        translated(s.drop_last()) + translated_char(s.last())
    }
}

/// Translates a text into Shyriiwook, the language of the Wookiees.
pub fn translate(text: &str) -> (r: String)
    ensures
        r@ == translated(text@),
{
    broadcast use vstd::string::group_string_axioms;

    let mut out = String::new();
    for c in it: text.chars()
        invariant
            it.seq() == text@,
            out@ == translated(text@.take(it.index() as int)),
    {
        let ghost done = text@.take(it.index() as int);
        let piece = match find_translation(c) {
            Some(rep) => {
                // Only ASCII letters have an entry, and among them the
                // uppercase ones are exactly 'A' through 'Z'.
                if 'A' <= c && c <= 'Z' {
                    proof {
                        lemma_phoneme_shape(letter_index(c));
                    }
                    capitalize(rep.as_str())
                } else {
                    rep
                }
            },
            None => {
                let mut own = String::new();
                push_char(&mut own, c);
                own
            },
        };
        assert(piece@ == translated_char(c));
        out.append(piece.as_str());
        assert(text@.take(it.index() + 1).drop_last() =~= done);
    }
    assert(text@.take(text@.len() as int) =~= text@);
    out
}

} // verus!
