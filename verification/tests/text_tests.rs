use impulse::order::{key_at_most, sort_by_key, text_at_most, SortKey};
use impulse::text::{chars_of, contains, has_suffix, lines, same_text, split_on, string_of, trim};

fn chars(text: &str) -> Vec<char> {
    text.chars().collect()
}

fn strings(vectors: Vec<Vec<char>>) -> Vec<String> {
    vectors.iter().map(|vector| vector.iter().collect()).collect()
}

fn key(rank: i64, name: Option<&str>) -> SortKey {
    SortKey { rank, name: name.map(chars) }
}

#[test]
fn strings_and_characters() {
    assert_eq!(chars_of("a\u{e9}\u{1f3b5}"), vec!['a', '\u{e9}', '\u{1f3b5}']);
    assert!(chars_of("").is_empty());
    assert_eq!(string_of(&chars("a\u{e9}\u{1f3b5}")), "a\u{e9}\u{1f3b5}");
    assert_eq!(string_of(&Vec::new()), "");
    assert!(same_text(&chars("abc"), &chars("abc")));
    assert!(!same_text(&chars("abc"), &chars("abd")));
    assert!(!same_text(&chars("abc"), &chars("ab")));
    assert!(same_text(&chars(""), &chars("")));
}

#[test]
fn trimming() {
    assert_eq!(trim(&chars("  a b \t\n")), chars("a b"));
    assert_eq!(trim(&chars("a")), chars("a"));
    assert_eq!(trim(&chars(" \u{a0}\u{3000} ")), chars(""));
    assert_eq!(trim(&chars("")), chars(""));
    assert_eq!(trim(&chars("\u{2003}x\u{2003}")), chars("x"));
}

#[test]
fn suffixes_and_substrings() {
    assert!(has_suffix(&chars("test.m3u"), &chars(".m3u")));
    assert!(!has_suffix(&chars("test.m3u8"), &chars(".m3u")));
    assert!(has_suffix(&chars("x"), &chars("")));
    assert!(!has_suffix(&chars("u"), &chars(".m3u")));
    assert!(contains(&chars("hello world"), &chars("lo w")));
    assert!(contains(&chars("hello"), &chars("hello")));
    assert!(contains(&chars("hello"), &chars("")));
    assert!(contains(&chars(""), &chars("")));
    assert!(contains(&chars("aab"), &chars("ab")));
    assert!(!contains(&chars("hello"), &chars("hello!")));
    assert!(!contains(&chars("hello"), &chars("lol")));
}

#[test]
fn splitting() {
    assert_eq!(strings(split_on(&chars("a-b--c"), '-')), vec!["a", "b", "", "c"]);
    assert_eq!(strings(split_on(&chars(""), '-')), vec![""]);
    assert_eq!(strings(split_on(&chars("-"), '-')), vec!["", ""]);
    assert_eq!(strings(split_on(&chars("abc"), '-')), vec!["abc"]);
}

#[test]
fn lines_end_with_line_feeds() {
    assert_eq!(strings(lines(&chars("a\nb\r\nc"))), vec!["a", "b", "c"]);
    assert_eq!(strings(lines(&chars("a\n"))), vec!["a"]);
    assert_eq!(strings(lines(&chars("a\n\n"))), vec!["a", ""]);
    assert_eq!(strings(lines(&chars("\n"))), vec![""]);
    assert!(lines(&chars("")).is_empty());
    assert_eq!(strings(lines(&chars("a\r"))), vec!["a\r"]);
    assert_eq!(strings(lines(&chars("a\r\r\nb"))), vec!["a\r", "b"]);
    assert_eq!(strings(lines(&chars("\r\n"))), vec![""]);
    let text = "one\r\ntwo\n\nthree\r";
    let expected: Vec<&str> = text.lines().collect();
    assert_eq!(strings(lines(&chars(text))), expected);
}

#[test]
fn texts_are_ordered_like_strings() {
    let samples = ["", "a", "A", "ab", "b", "B", "a b", "\u{e9}", "z", "\u{1f3b5}", "aa"];
    for first in samples {
        for second in samples {
            assert_eq!(
                text_at_most(&chars(first), &chars(second)),
                first <= second,
                "{:?} {:?}",
                first,
                second
            );
        }
    }
}

#[test]
fn keys_go_by_rank_then_name() {
    assert!(key_at_most(&key(0, Some("z")), &key(1, Some("a"))));
    assert!(!key_at_most(&key(1, Some("a")), &key(0, Some("z"))));
    assert!(key_at_most(&key(1, Some("a")), &key(1, Some("b"))));
    assert!(!key_at_most(&key(1, Some("b")), &key(1, Some("a"))));
    assert!(key_at_most(&key(1, Some("a")), &key(1, Some("a"))));
    assert!(key_at_most(&key(1, None), &key(1, Some(""))));
    assert!(!key_at_most(&key(1, Some("")), &key(1, None)));
    assert!(key_at_most(&key(1, None), &key(1, None)));
    assert!(key_at_most(&key(i64::MIN, None), &key(i64::MAX, None)));
}

#[test]
fn sorting_is_stable() {
    let items = vec![
        (key(1, Some("b")), 0),
        (key(0, Some("z")), 1),
        (key(1, Some("a")), 2),
        (key(1, Some("b")), 3),
        (key(0, None), 4),
        (key(1, Some("a")), 5),
        (key(-1, Some("q")), 6),
    ];
    let sorted: Vec<i32> = sort_by_key(items).into_iter().map(|item| item.1).collect();
    assert_eq!(sorted, vec![6, 4, 1, 2, 5, 0, 3]);
    let none: Vec<(SortKey, i32)> = Vec::new();
    assert!(sort_by_key(none).is_empty());
}
