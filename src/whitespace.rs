//! White-space collapsing of a text node's characters.

use crate::style::WhiteSpaceCollapse;
use vstd::prelude::*;

verus! {

/// ASCII white space as `char::is_ascii_whitespace` has it: space, tab, line
/// feed, form feed and carriage return.
pub open spec fn is_ascii_ws(c: char) -> bool {
    c == ' ' || c == '\t' || c == '\n' || c == '\x0C' || c == '\r'
}

/// Executable form of [`is_ascii_ws`].
pub fn ascii_ws(c: char) -> (r: bool)
    ensures
        r == is_ascii_ws(c),
{
    c == ' ' || c == '\t' || c == '\n' || c == '\x0C' || c == '\r'
}

/// Collapsing from a point where `after_space` says whether a space was just
/// produced (or leading white space is to be dropped): each run of white space
/// becomes one space, and a run that follows such a point vanishes.
pub open spec fn collapse_from(s: Seq<char>, after_space: bool) -> Seq<char>
    decreases s.len(),
{
    if s.len() == 0 {
        Seq::empty()
    } else if is_ascii_ws(s[0]) {
        if after_space {
            collapse_from(s.drop_first(), true)
        } else {
            seq![' '] + collapse_from(s.drop_first(), true)
        }
    } else {
        seq![s[0]] + collapse_from(s.drop_first(), false)
    }
}

/// The characters after white-space processing: unchanged under `Preserve`;
/// under `Collapse` every maximal run of ASCII white space becomes a single
/// space, and a leading run is dropped when `trim_leading` holds.
pub open spec fn collapsed(s: Seq<char>, mode: WhiteSpaceCollapse, trim_leading: bool) -> Seq<char> {
    match mode {
        WhiteSpaceCollapse::Preserve => s,
        WhiteSpaceCollapse::Collapse => collapse_from(s, trim_leading),
    }
}

/// Applies white-space processing to `text` in one pass.
pub fn collapse_whitespace(text: &Vec<char>, mode: WhiteSpaceCollapse, trim_leading: bool) -> (r:
    Vec<char>)
    ensures
        r@ == collapsed(text@, mode, trim_leading),
{
    let mut out: Vec<char> = Vec::new();
    let mut after_space = trim_leading;
    let preserve = mode == WhiteSpaceCollapse::Preserve;
    let mut i: usize = 0;
    assert(text@.skip(0) =~= text@);
    assert(out@ + collapse_from(text@.skip(0), after_space) =~= collapse_from(text@, trim_leading));
    while i < text.len()
        invariant
            i <= text@.len(),
            preserve == (mode == WhiteSpaceCollapse::Preserve),
            preserve ==> out@ == text@.take(i as int),
            !preserve ==> out@ + collapse_from(text@.skip(i as int), after_space)
                == collapse_from(text@, trim_leading),
        decreases text@.len() - i,
    {
        let c = text[i];
        let ghost before = out@;
        proof {
            assert(text@.skip(i as int).drop_first() =~= text@.skip(i + 1));
            assert(text@.take(i + 1) =~= text@.take(i as int).push(c));
        }
        if preserve {
            out.push(c);
        } else if ascii_ws(c) {
            if !after_space {
                out.push(' ');
                assert(out@ + collapse_from(text@.skip(i + 1), true) =~= before + (seq![' ']
                    + collapse_from(text@.skip(i + 1), true)));
            }
            after_space = true;
        } else {
            out.push(c);
            assert(out@ + collapse_from(text@.skip(i + 1), false) =~= before + (seq![c]
                + collapse_from(text@.skip(i + 1), false)));
            after_space = false;
        }
        i += 1;
    }
    proof {
        assert(text@.take(text@.len() as int) =~= text@);
    }
    out
}

/// `s` has no two white-space characters in a row, and its only white space
/// is the plain space.
pub open spec fn spaced_once(s: Seq<char>) -> bool {
    &&& forall|k: int| 0 <= k < s.len() - 1 ==> !(is_ascii_ws(#[trigger] s[k]) && is_ascii_ws(s[k + 1]))
    &&& forall|k: int| 0 <= k < s.len() && is_ascii_ws(#[trigger] s[k]) ==> s[k] == ' '
}

proof fn lemma_collapse_from_fixed(s: Seq<char>, after_space: bool)
    requires
        spaced_once(s),
        after_space && s.len() > 0 ==> !is_ascii_ws(s[0]),
    ensures
        collapse_from(s, after_space) == s,
    decreases s.len(),
{
    if s.len() > 0 {
        let rest = s.drop_first();
        assert forall|k: int| 0 <= k < rest.len() - 1 implies !(is_ascii_ws(#[trigger] rest[k])
            && is_ascii_ws(rest[k + 1])) by {
            assert(rest[k] == s[k + 1] && rest[k + 1] == s[k + 2]);
        }
        assert forall|k: int| 0 <= k < rest.len() && is_ascii_ws(#[trigger] rest[k]) implies rest[k]
            == ' ' by {
            assert(rest[k] == s[k + 1]);
        }
        if is_ascii_ws(s[0]) {
            if rest.len() > 0 {
                assert(rest[0] == s[1]);
            }
            lemma_collapse_from_fixed(rest, true);
            assert(seq![' '] + rest =~= s);
        } else {
            lemma_collapse_from_fixed(rest, false);
            assert(seq![s[0]] + rest =~= s);
        }
    }
}

/// White-space collapsing is the identity on text that has no leading or
/// trailing white space, no white space doubled, and no white space other than
/// the plain space (a lone tab would become a space).
pub proof fn collapse_keeps_clean_text(s: Seq<char>, trim_leading: bool)
    requires
        s.len() > 0 ==> !is_ascii_ws(s[0]) && !is_ascii_ws(s.last()),
        spaced_once(s),
    ensures
        collapsed(s, WhiteSpaceCollapse::Collapse, trim_leading) == s,
{
    lemma_collapse_from_fixed(s, trim_leading);
}

} // verus!
