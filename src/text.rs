//! Case transformation of collected text, and the conversions between
//! `String` and characters that the collection needs.

use crate::style::TextTransform;
use crate::whitespace::{ascii_ws, is_ascii_ws};
use vstd::prelude::*;

verus! {

/// What `char::to_uppercase` yields for one character.
pub uninterp spec fn upper_of(c: char) -> Seq<char>;

/// What `char::to_lowercase` yields for one character.
pub uninterp spec fn lower_of(c: char) -> Seq<char>;

/// Relies on `char::to_uppercase`: the characters of `c`'s uppercase mapping.
#[verifier::external_body]
fn char_to_upper(c: char) -> (r: Vec<char>)
    ensures
        r@ == upper_of(c),
{
    c.to_uppercase().collect()
}

/// Relies on `char::to_lowercase`: the characters of `c`'s lowercase mapping.
#[verifier::external_body]
fn char_to_lower(c: char) -> (r: Vec<char>)
    ensures
        r@ == lower_of(c),
{
    c.to_lowercase().collect()
}

/// Relies on `str::chars`: the characters of `s`, in order.
#[verifier::external_body]
pub(crate) fn chars_of(s: &str) -> (r: Vec<char>)
    ensures
        r@ == s@,
{
    s.chars().collect()
}

/// Relies on `String::from_iter` over characters: a string of exactly `v`.
#[verifier::external_body]
pub(crate) fn string_of(v: &Vec<char>) -> (r: String)
    ensures
        r@ == v@,
{
    v.iter().collect()
}

/// Every character replaced by its uppercase mapping.
pub open spec fn upper_all(s: Seq<char>) -> Seq<char>
    decreases s.len(),
{
    if s.len() == 0 {
        Seq::empty()
    } else {
        upper_all(s.drop_last()) + upper_of(s.last())
    }
}

/// Every character replaced by its lowercase mapping.
pub open spec fn lower_all(s: Seq<char>) -> Seq<char>
    decreases s.len(),
{
    if s.len() == 0 {
        Seq::empty()
    } else {
        lower_all(s.drop_last()) + lower_of(s.last())
    }
}

/// The character-level transform: case mapping for `Uppercase` and
/// `Lowercase`, the identity otherwise (capitalization is a separate pass).
pub open spec fn transformed(s: Seq<char>, tt: TextTransform) -> Seq<char> {
    match tt {
        TextTransform::Uppercase => upper_all(s),
        TextTransform::Lowercase => lower_all(s),
        _ => s,
    }
}

/// Position `k` starts a word: its character is not white space and it is
/// first or follows white space.
pub open spec fn starts_word(s: Seq<char>, k: int) -> bool {
    !is_ascii_ws(s[k]) && (k == 0 || is_ascii_ws(s[k - 1]))
}

/// Word-initial capitalization: the first character of each word is replaced
/// by its uppercase mapping, all others are kept.
pub open spec fn capitalized(s: Seq<char>) -> Seq<char>
    decreases s.len(),
{
    if s.len() == 0 {
        Seq::empty()
    } else {
        let k = s.len() - 1;
        capitalized(s.drop_last()) + if starts_word(s, k) {
            upper_of(s[k])
        } else {
            seq![s[k]]
        }
    }
}

/// Applies the character-level part of `text-transform` to `text`.
pub fn apply_text_transform(text: &Vec<char>, tt: TextTransform) -> (r: Vec<char>)
    ensures
        r@ == transformed(text@, tt),
{
    if tt != TextTransform::Uppercase && tt != TextTransform::Lowercase {
        return text.clone();
    }
    let upper = tt == TextTransform::Uppercase;
    let mut out: Vec<char> = Vec::new();
    let mut i: usize = 0;
    while i < text.len()
        invariant
            i <= text@.len(),
            upper == (tt == TextTransform::Uppercase),
            tt == TextTransform::Uppercase || tt == TextTransform::Lowercase,
            out@ == transformed(text@.take(i as int), tt),
        decreases text@.len() - i,
    {
        let c = text[i];
        let mut m = if upper {
            char_to_upper(c)
        } else {
            char_to_lower(c)
        };
        out.append(&mut m);
        proof {
            let t = text@.take(i + 1);
            assert(t.drop_last() =~= text@.take(i as int));
            assert(t.last() == c);
        }
        i += 1;
    }
    proof {
        assert(text@.take(text@.len() as int) =~= text@);
    }
    out
}

/// Capitalizes the first character of every word of `text`.
pub fn capitalize_words(text: &Vec<char>) -> (r: Vec<char>)
    ensures
        r@ == capitalized(text@),
{
    let mut out: Vec<char> = Vec::new();
    let mut i: usize = 0;
    while i < text.len()
        invariant
            i <= text@.len(),
            out@ == capitalized(text@.take(i as int)),
        decreases text@.len() - i,
    {
        let c = text[i];
        let word_start = !ascii_ws(c) && (i == 0 || ascii_ws(text[i - 1]));
        proof {
            let t = text@.take(i + 1);
            assert(t.drop_last() =~= text@.take(i as int));
            assert(t[i as int] == c);
            assert(i > 0 ==> t[i - 1] == text@[i - 1]);
            assert(word_start == starts_word(t, i as int));
        }
        if word_start {
            let mut m = char_to_upper(c);
            out.append(&mut m);
        } else {
            out.push(c);
        }
        i += 1;
    }
    proof {
        assert(text@.take(text@.len() as int) =~= text@);
    }
    out
}

} // verus!
