use rendered_text::style::{TextTransform, WhiteSpaceCollapse};
use rendered_text::text::{apply_text_transform, capitalize_words};
use rendered_text::whitespace::collapse_whitespace;

fn chars(s: &str) -> Vec<char> {
    s.chars().collect()
}

fn string(v: Vec<char>) -> String {
    v.into_iter().collect()
}

#[test]
fn collapse_turns_runs_into_one_space() {
    let r = collapse_whitespace(&chars("a  b\t\nc "), WhiteSpaceCollapse::Collapse, false);
    assert_eq!(string(r), "a b c ");
}

#[test]
fn collapse_trims_leading_run_on_request() {
    let input = chars(" \t a");
    assert_eq!(string(collapse_whitespace(&input, WhiteSpaceCollapse::Collapse, true)), "a");
    assert_eq!(string(collapse_whitespace(&input, WhiteSpaceCollapse::Collapse, false)), " a");
}

#[test]
fn preserve_passes_through() {
    let input = chars("  a\u{AD}\t b ");
    assert_eq!(collapse_whitespace(&input, WhiteSpaceCollapse::Preserve, true), input);
}

#[test]
fn collapse_leaves_clean_text_alone() {
    let input = chars("one two three");
    assert_eq!(collapse_whitespace(&input, WhiteSpaceCollapse::Collapse, false), input);
    assert_eq!(collapse_whitespace(&input, WhiteSpaceCollapse::Collapse, true), input);
}

#[test]
fn collapse_of_empty_is_empty() {
    assert!(collapse_whitespace(&Vec::new(), WhiteSpaceCollapse::Collapse, true).is_empty());
}

#[test]
fn uppercase_and_lowercase_map_each_character() {
    assert_eq!(string(apply_text_transform(&chars("abc ß"), TextTransform::Uppercase)), "ABC SS");
    assert_eq!(string(apply_text_transform(&chars("ÀBC"), TextTransform::Lowercase)), "àbc");
    assert_eq!(string(apply_text_transform(&chars("aBc"), TextTransform::Unchanged)), "aBc");
    assert_eq!(string(apply_text_transform(&chars("aBc"), TextTransform::Capitalize)), "aBc");
}

#[test]
fn capitalize_uppercases_word_starts() {
    assert_eq!(string(capitalize_words(&chars("hello  big\tworld"))), "Hello  Big\tWorld");
    assert_eq!(string(capitalize_words(&chars(" xY"))), " XY");
}
