use yoauditor::text::{
    chars_of, comes_before, contains, count_text, distinct_texts, is_whitespace,
    join, lines, list_contains, matches_at, note, push_decimal, slice_of, sort_texts, split,
    str_contains, str_eq, str_starts_with, string_of, trim,
};

fn chars(s: &str) -> Vec<char> {
    s.chars().collect()
}

fn text(v: &Vec<char>) -> String {
    v.iter().collect()
}

#[test]
fn white_space_is_what_the_standard_library_says() {
    let mut c = 0u32;
    while c <= 0x10FFFF {
        if let Some(ch) = char::from_u32(c) {
            assert_eq!(is_whitespace(ch), ch.is_whitespace(), "U+{:04X}", c);
        }
        c += 1;
    }
}

#[test]
fn characters_and_strings_convert_both_ways() {
    for s in ["", "abc", "héllo wörld", "日本語", "a\nb"] {
        assert_eq!(chars_of(s), chars(s));
        assert_eq!(string_of(&chars(s)), s);
    }
    assert_eq!(slice_of(&chars("hello"), 1, 4), chars("ell"));
    assert_eq!(slice_of(&chars("hello"), 2, 2), chars(""));
}

#[test]
fn string_equality() {
    assert!(str_eq("", ""));
    assert!(str_eq("abc", "abc"));
    assert!(!str_eq("abc", "abd"));
    assert!(!str_eq("abc", "ab"));
}

#[test]
fn trim_removes_white_space_at_both_ends() {
    for s in ["", "   ", "a", "  a b  ", "\t\r\n x \u{a0}\u{3000}", "x\n", "\u{feff}x"] {
        assert_eq!(text(&trim(&chars(s))), s.trim(), "{:?}", s);
    }
}

#[test]
fn split_yields_the_pieces_between_separators() {
    for s in ["", "a", "a/b", "/a/", "//", "a//b/", "no separator"] {
        let expected: Vec<String> = s.split('/').map(|p| p.to_string()).collect();
        let pieces: Vec<String> = split(&chars(s), '/').iter().map(text).collect();
        assert_eq!(pieces, expected, "{:?}", s);
    }
}

#[test]
fn lines_are_what_the_standard_library_says() {
    for s in ["", "a", "a\n", "a\nb", "a\r\nb\r\n", "a\r", "\n", "\n\n", "a\n\nb", "a\r\r\n", "\r\n"] {
        let expected: Vec<String> = s.lines().map(|l| l.to_string()).collect();
        let found: Vec<String> = lines(s).iter().map(text).collect();
        assert_eq!(found, expected, "{:?}", s);
    }
}

#[test]
fn contains_and_starts_with() {
    let cases = [
        ("hello world", "o w"),
        ("hello", "hello"),
        ("hello", "hello!"),
        ("hello", ""),
        ("", ""),
        ("", "a"),
        ("aaab", "aab"),
        ("abcabd", "abd"),
        ("héllo", "é"),
    ];
    for (hay, needle) in cases {
        assert_eq!(str_contains(hay, needle), hay.contains(needle), "{:?} {:?}", hay, needle);
        assert_eq!(contains(&chars(hay), &chars(needle)), hay.contains(needle));
        assert_eq!(str_starts_with(hay, needle), hay.starts_with(needle), "{:?} {:?}", hay, needle);
    }
    assert!(matches_at(&chars("abc"), &chars("bc"), 1));
    assert!(!matches_at(&chars("abc"), &chars("bc"), 2));
    assert!(!matches_at(&chars("abc"), &chars("bc"), 0));
    assert!(matches_at(&chars("abc"), &chars(""), 3));
    assert!(!matches_at(&chars("abc"), &chars(""), 4));
}

#[test]
fn decimal_numerals() {
    for n in [0u64, 1, 9, 10, 11, 99, 100, 12345, 8001, u64::MAX] {
        let mut numeral = String::new();
        push_decimal(&mut numeral, n);
        assert_eq!(numeral, n.to_string());
    }
    let mut out = "n=".to_string();
    push_decimal(&mut out, 120);
    assert_eq!(out, "n=120");
}

#[test]
fn join_puts_the_separator_between() {
    let none: Vec<String> = vec![];
    assert_eq!(join(&none, ", "), "");
    assert_eq!(join(&vec!["a".to_string()], ", "), "a");
    assert_eq!(join(&vec!["a".to_string(), "".to_string(), "c".to_string()], ", "), "a, , c");
}

#[test]
fn lists_of_texts() {
    let list = vec!["b".to_string(), "a".to_string(), "b".to_string(), "c".to_string(), "a".to_string()];
    assert!(list_contains(&list, "c"));
    assert!(!list_contains(&list, "d"));
    assert_eq!(count_text(&list, "b"), 2);
    assert_eq!(count_text(&list, "z"), 0);
    assert_eq!(distinct_texts(&list), vec!["b", "a", "c"]);
    let mut noted = vec!["x".to_string()];
    note(&mut noted, "y");
    note(&mut noted, "x");
    assert_eq!(noted, vec!["x", "y"]);
}

#[test]
fn texts_sort_like_strings() {
    let items = vec!["b", "a/", "a", "B", "", "ab", "é", "z", "a", "10", "9"];
    let mut expected: Vec<String> = items.iter().map(|s| s.to_string()).collect();
    let sorted = sort_texts(expected.clone());
    expected.sort();
    assert_eq!(sorted, expected);
    for a in &items {
        for b in &items {
            assert_eq!(comes_before(&chars(a), &chars(b)), a < b, "{:?} {:?}", a, b);
        }
    }
    assert!(sort_texts(Vec::new()).is_empty());
}
