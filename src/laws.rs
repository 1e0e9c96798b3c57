use vstd::prelude::*;

use crate::casing::{ascii_capitalized, ascii_upper};
use crate::phonemes::{is_ascii_lower, is_ascii_upper, lemma_phoneme_shape, phoneme};
use crate::translator::{translated, translated_char};

verus! {

proof fn lemma_translated_single(c: char)
    ensures
        translated(seq![c]) == translated_char(c),
{
    assert(seq![c].drop_last() =~= Seq::<char>::empty());
    assert(translated(seq![c]) == translated(Seq::<char>::empty()) + translated_char(c));
    assert(Seq::<char>::empty() + translated_char(c) =~= translated_char(c));
}

/// A lowercase ASCII letter translates to exactly its table entry.
pub proof fn lemma_translate_lowercase_letter(c: char)
    requires
        is_ascii_lower(c),
    ensures
        translated(seq![c]) == phoneme(c as int - 'a' as int),
{
    lemma_translated_single(c);
}

/// An uppercase ASCII letter translates to its table entry with the first
/// character uppercased and the rest unchanged.
pub proof fn lemma_translate_uppercase_letter(c: char)
    requires
        is_ascii_upper(c),
    ensures
        translated(seq![c]) == ascii_capitalized(phoneme(c as int - 'A' as int)),
        translated(seq![c]).len() == phoneme(c as int - 'A' as int).len(),
        translated(seq![c])[0] as u32 + 32 == phoneme(c as int - 'A' as int)[0] as u32,
        translated(seq![c]).drop_first() == phoneme(c as int - 'A' as int).drop_first(),
{
    lemma_translated_single(c);
    lemma_phoneme_shape(c as int - 'A' as int);
    let rep = phoneme(c as int - 'A' as int);
    assert((seq![ascii_upper(rep[0])] + rep.drop_first()).drop_first() =~= rep.drop_first());
}

/// Any character other than an ASCII letter translates to itself.
pub proof fn lemma_translate_other_char(c: char)
    requires
        !is_ascii_lower(c),
        !is_ascii_upper(c),
    ensures
        translated(seq![c]) == seq![c],
{
    lemma_translated_single(c);
}

/// Translation never makes a text shorter.
pub proof fn lemma_translate_not_shorter(s: Seq<char>)
    ensures
        translated(s).len() >= s.len(),
    decreases s.len(),
{
    if s.len() > 0 {
        lemma_translate_not_shorter(s.drop_last());
        let c = s.last();
        if is_ascii_lower(c) || is_ascii_upper(c) {
            lemma_phoneme_shape(if is_ascii_lower(c) {
                c as int - 'a' as int
            } else {
                c as int - 'A' as int
            });
        }
    }
}

} // verus!
