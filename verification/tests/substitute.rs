use regex_replace::failure::Failure;
use regex_replace::substitute::{finish, replace};

fn replaced(pattern: &str, replacement: &str, data: &str) -> String {
    replace(pattern, replacement, data).expect("the pattern compiles")
}

#[test]
fn replaces_every_match_of_a_literal() {
    assert_eq!(replace("foo", "bar", "foo baz foo"), Ok(String::from("bar baz bar")));
}

#[test]
fn expands_numbered_groups() {
    assert_eq!(replace(r"(\d+)", "[$1]", "a1b22c333"), Ok(String::from("a[1]b[22]c[333]")));
}

#[test]
fn expands_named_groups() {
    assert_eq!(
        replaced(r"(?P<last>\w+), (?P<first>\w+)", "$first $last", "Doe, Jane; Roe, Rick"),
        "Jane Doe; Rick Roe"
    );
}

#[test]
fn swaps_groups_with_braces() {
    assert_eq!(replaced(r"(\w+)@(\w+)", "${2}_at_${1}", "user@host"), "host_at_user");
}

#[test]
fn unbalanced_group_is_refused() {
    assert_eq!(replace("(", "anything", "any input"), Err(Failure::PatternCompile));
    assert_eq!(replace("(", "", ""), Err(Failure::PatternCompile));
}

#[test]
fn other_malformed_patterns_are_refused() {
    assert_eq!(replace("[a-", "x", "abc"), Err(Failure::PatternCompile));
    assert_eq!(replace("a{2,1}", "x", "abc"), Err(Failure::PatternCompile));
    assert_eq!(replace("*a", "x", "abc"), Err(Failure::PatternCompile));
    assert_eq!(replace(r"\", "x", "abc"), Err(Failure::PatternCompile));
}

#[test]
fn text_without_a_match_comes_back_unchanged() {
    assert_eq!(replace("xyz", "bar", "foo baz foo"), Ok(String::from("foo baz foo")));
    assert_eq!(replace(r"\d+", "#", "no digits here\n"), Ok(String::from("no digits here\n")));
    assert_eq!(replace("a", "b", ""), Ok(String::new()));
}

#[test]
fn second_pass_changes_nothing_once_the_pattern_is_gone() {
    let once = replaced("foo", "bar", "foo baz foo");
    let twice = replaced("foo", "bar", &once);
    assert_eq!(once, "bar baz bar");
    assert_eq!(twice, once);
}

#[test]
fn second_pass_replaces_again_where_the_pattern_still_matches() {
    let once = replaced("a", "aa", "a");
    let twice = replaced("a", "aa", &once);
    assert_eq!(once, "aa");
    assert_eq!(twice, "aaaa");
}

#[test]
fn matches_do_not_overlap() {
    assert_eq!(replaced("aa", "X", "aaaa"), "XX");
    assert_eq!(replaced("aa", "X", "aaa"), "Xa");
    assert_eq!(replaced("aba", "X", "ababa"), "Xba");
}

#[test]
fn first_alternative_wins_at_the_leftmost_position() {
    assert_eq!(replaced("a|ab", "X", "ab"), "Xb");
    assert_eq!(replaced("ab|a", "X", "ab"), "X");
    assert_eq!(replaced("b|ab", "X", "ab"), "X");
}

#[test]
fn quantifiers_are_greedy_unless_told_otherwise() {
    assert_eq!(replaced("a+", "X", "aaa b aa"), "X b X");
    assert_eq!(replaced("a+?", "X", "aaa"), "XXX");
    assert_eq!(replaced("<.*>", "X", "<a><b>"), "X");
    assert_eq!(replaced("<.*?>", "X", "<a><b>"), "XX");
}

#[test]
fn empty_matches_move_on_by_one_character() {
    assert_eq!(replaced("", "-", "abc"), "-a-b-c-");
    assert_eq!(replaced("x*", "-", "abc"), "-a-b-c-");
    assert_eq!(replaced("x*", "-", "axxb"), "-a-b-");
    assert_eq!(replaced("", "-", ""), "-");
    assert_eq!(replaced("", "-", "\u{e9}\u{4e16}"), "-\u{e9}-\u{4e16}-");
}

#[test]
fn replacement_may_be_empty_or_longer_than_the_match() {
    assert_eq!(replaced(r"\s+", "", " a  b\tc\n"), "abc");
    assert_eq!(replaced("b", "[bbb]", "abc"), "a[bbb]c");
}

#[test]
fn group_that_the_pattern_lacks_expands_to_nothing() {
    assert_eq!(replaced("(a)", "<$2>", "a"), "<>");
    assert_eq!(replaced("a", "$$", "a"), "$");
}

#[test]
fn text_beyond_ascii_is_kept() {
    assert_eq!(replaced("\u{e9}", "e", "caf\u{e9} \u{4e16}\u{754c}"), "cafe \u{4e16}\u{754c}");
    assert_eq!(replaced(r"\w+", "w", "\u{4e16}\u{754c} ok"), "w w");
}

#[test]
fn lines_are_part_of_one_text() {
    assert_eq!(replaced("(?m)^", "> ", "a\nb"), "> a\n> b");
    assert_eq!(replaced("a.b", "X", "a\nb"), "a\nb");
}

#[test]
fn finish_keeps_the_input_where_nothing_matched() {
    assert_eq!(finish("foo baz foo", None), "foo baz foo");
    assert_eq!(finish("", None), "");
}

#[test]
fn finish_takes_the_rewritten_text() {
    assert_eq!(finish("foo baz foo", Some(String::from("bar baz bar"))), "bar baz bar");
    assert_eq!(finish("abc", Some(String::new())), "");
}
