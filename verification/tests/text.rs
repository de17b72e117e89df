use gpt_validator::text::{chars_of, contains_chars, push_decimal, str_eq};

fn decimal_string(n: usize) -> String {
    let mut out = String::new();
    push_decimal(&mut out, n);
    out
}

fn str_contains(hay: &str, needle: &str) -> bool {
    contains_chars(&chars_of(hay), &chars_of(needle))
}

#[test]
fn chars_of_gives_the_characters_in_order() {
    assert_eq!(chars_of(""), Vec::<char>::new());
    assert_eq!(chars_of("abc"), vec!['a', 'b', 'c']);
    assert_eq!(chars_of("h\u{00E9}llo"), vec!['h', '\u{00E9}', 'l', 'l', 'o']);
    assert_eq!(chars_of("\u{1F600}!"), vec!['\u{1F600}', '!']);
}

#[test]
fn push_decimal_writes_numerals() {
    assert_eq!(decimal_string(0), "0");
    assert_eq!(decimal_string(7), "7");
    assert_eq!(decimal_string(9), "9");
    assert_eq!(decimal_string(10), "10");
    assert_eq!(decimal_string(99), "99");
    assert_eq!(decimal_string(100), "100");
    assert_eq!(decimal_string(1203), "1203");
    assert_eq!(decimal_string(9876543210), "9876543210");
    assert_eq!(decimal_string(usize::MAX), usize::MAX.to_string());
}

#[test]
fn push_decimal_agrees_with_the_standard_rendering() {
    let mut n: usize = 1;
    for _ in 0..19 {
        assert_eq!(decimal_string(n), n.to_string());
        assert_eq!(decimal_string(n - 1), (n - 1).to_string());
        assert_eq!(decimal_string(n + 1), (n + 1).to_string());
        n *= 10;
    }
    for n in 0..1500usize {
        assert_eq!(decimal_string(n), n.to_string());
    }
}

#[test]
fn push_decimal_appends_to_what_is_there() {
    let mut out = String::from("line ");
    push_decimal(&mut out, 42);
    assert_eq!(out, "line 42");
    push_decimal(&mut out, 0);
    assert_eq!(out, "line 420");
}

#[test]
fn contains_chars_finds_runs_anywhere() {
    assert!(str_contains("hello world", "hello"));
    assert!(str_contains("hello world", "world"));
    assert!(str_contains("hello world", "o w"));
    assert!(str_contains("hello world", "hello world"));
    assert!(str_contains("aab", "ab"));
    assert!(str_contains("aaab", "aab"));
    assert!(str_contains("abababc", "ababc"));
}

#[test]
fn contains_chars_rejects_what_is_not_there() {
    assert!(!str_contains("hello world", "worlds"));
    assert!(!str_contains("hello world", "hello world!"));
    assert!(!str_contains("hello", "hello world"));
    assert!(!str_contains("aaa", "aab"));
    assert!(!str_contains("", "a"));
    assert!(!str_contains("Hello", "hello"));
    assert!(!str_contains("h e l l o", "hello"));
}

#[test]
fn contains_chars_finds_the_empty_text_everywhere() {
    assert!(str_contains("", ""));
    assert!(str_contains("abc", ""));
}

#[test]
fn contains_chars_compares_characters() {
    assert!(str_contains("na\u{00EF}ve caf\u{00E9}", "\u{00EF}ve"));
    assert!(str_contains("na\u{00EF}ve caf\u{00E9}", "\u{00E9}"));
    assert!(!str_contains("na\u{00EF}ve caf\u{00E9}", "naive"));
    assert!(str_contains("a\u{1F600}b", "\u{1F600}b"));
}

#[test]
fn contains_chars_agrees_with_the_standard_search() {
    let hays = ["", "a", "ab", "aba", "abab", "bbbab", "is a false positive", "xyz"];
    let needles = ["", "a", "b", "ab", "ba", "bab", "abc", "false", "positive ", "z"];
    for hay in hays.iter() {
        for needle in needles.iter() {
            assert_eq!(str_contains(hay, needle), hay.contains(needle), "{:?} {:?}", hay, needle);
        }
    }
}

#[test]
fn contains_chars_works_on_slices() {
    let hay = ['a', 'b', 'c', 'd'];
    assert!(contains_chars(&hay, &['b', 'c']));
    assert!(contains_chars(&hay, &['d']));
    assert!(contains_chars(&hay, &[]));
    assert!(!contains_chars(&hay, &['c', 'b']));
    assert!(!contains_chars(&hay, &['a', 'b', 'c', 'd', 'e']));
    assert!(!contains_chars(&[], &['a']));
}

#[test]
fn str_eq_compares_whole_texts() {
    assert!(str_eq("", ""));
    assert!(str_eq("High", "High"));
    assert!(!str_eq("High", "high"));
    assert!(!str_eq("High", "Hig"));
    assert!(!str_eq("Hig", "High"));
    assert!(!str_eq("High", "Higi"));
    assert!(str_eq("caf\u{00E9}", "caf\u{00E9}"));
    assert!(!str_eq("caf\u{00E9}", "cafe"));
}
