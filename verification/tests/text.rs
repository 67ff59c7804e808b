use cosmic_ext_applet_updates::text::{
    characters, contains_pattern, find_from, is_whitespace, same_text, split_lines,
    split_whitespace, text_of, trim_end_matches,
};

fn chars(text: &str) -> Vec<char> {
    text.chars().collect()
}

fn strings(parts: &[&[char]]) -> Vec<String> {
    parts.iter().map(|part| part.iter().collect()).collect()
}

fn lines_of(text: &str) -> Vec<String> {
    let all = chars(text);
    strings(&split_lines(&all))
}

fn words_of(text: &str) -> Vec<String> {
    let all = chars(text);
    strings(&split_whitespace(&all))
}

#[test]
fn characters_of_a_text() {
    assert_eq!(characters("a→b"), vec!['a', '→', 'b']);
    assert_eq!(characters(""), Vec::<char>::new());
}

#[test]
fn text_of_characters() {
    assert_eq!(text_of(&['p', 'ä', 'c']), "päc");
    assert_eq!(text_of(&[]), "");
}

#[test]
fn text_of_inverts_characters() {
    let text = "firefox/jammy 121.0 amd64 [upgradable from: 120.0]";
    assert_eq!(text_of(&characters(text)), text);
}

#[test]
fn whitespace_is_the_unicode_property() {
    let mut code: u32 = 0;
    while code <= 0x10FFFF {
        if let Some(c) = char::from_u32(code) {
            assert_eq!(is_whitespace(c), c.is_whitespace(), "U+{:04X}", code);
        }
        code += 1;
    }
}

#[test]
fn whitespace_examples() {
    assert!(is_whitespace(' '));
    assert!(is_whitespace('\t'));
    assert!(is_whitespace('\n'));
    assert!(is_whitespace('\r'));
    assert!(is_whitespace('\u{00A0}'));
    assert!(is_whitespace('\u{3000}'));
    assert!(!is_whitespace('a'));
    assert!(!is_whitespace('-'));
    assert!(!is_whitespace('\u{200B}'));
}

#[test]
fn find_from_gives_first_occurrence_or_end() {
    let text = chars("ab/cd/e");
    assert_eq!(find_from(&text, 0, '/'), 2);
    assert_eq!(find_from(&text, 2, '/'), 2);
    assert_eq!(find_from(&text, 3, '/'), 5);
    assert_eq!(find_from(&text, 6, '/'), 7);
    assert_eq!(find_from(&text, 7, '/'), 7);
    assert_eq!(find_from(&[], 0, '/'), 0);
}

#[test]
fn lines_of_empty_text() {
    assert_eq!(lines_of(""), Vec::<String>::new());
}

#[test]
fn lines_end_at_line_feeds() {
    assert_eq!(lines_of("a\nb"), vec!["a", "b"]);
    assert_eq!(lines_of("a\nb\n"), vec!["a", "b"]);
    assert_eq!(lines_of("\n"), vec![""]);
    assert_eq!(lines_of("a\n\nb"), vec!["a", "", "b"]);
    assert_eq!(lines_of("no feed"), vec!["no feed"]);
}

#[test]
fn lines_drop_carriage_return_before_line_feed() {
    assert_eq!(lines_of("a\r\nb\r\n"), vec!["a", "b"]);
    assert_eq!(lines_of("a\r\r\nb"), vec!["a\r", "b"]);
    assert_eq!(lines_of("a\rb\n"), vec!["a\rb"]);
    assert_eq!(lines_of("\r\n"), vec![""]);
}

#[test]
fn last_line_without_line_feed_keeps_carriage_return() {
    assert_eq!(lines_of("a\nb\r"), vec!["a", "b\r"]);
}

#[test]
fn lines_agree_with_std() {
    let samples = [
        "",
        "\n",
        "\r\n",
        "a",
        "a\n",
        "a\r\n",
        "a\r",
        "\n\n",
        "Listing...\nfirefox/jammy 121.0 amd64 [upgradable from: 120.0]\n",
        "one\r\ntwo\nthree\r\n\r\nfour",
        "\r\r\n\n\r",
    ];
    for sample in samples {
        let expected: Vec<String> = sample.lines().map(|line| line.to_string()).collect();
        assert_eq!(lines_of(sample), expected, "{:?}", sample);
    }
}

#[test]
fn words_of_a_line() {
    assert_eq!(words_of("firefox 120.0-1 -> 121.0-1"), vec!["firefox", "120.0-1", "->", "121.0-1"]);
    assert_eq!(words_of("  a \t b  "), vec!["a", "b"]);
    assert_eq!(words_of(""), Vec::<String>::new());
    assert_eq!(words_of(" \t\r "), Vec::<String>::new());
    assert_eq!(words_of("single"), vec!["single"]);
}

#[test]
fn words_split_at_every_unicode_space() {
    assert_eq!(words_of("a\u{00A0}b\u{2003}c\u{3000}d"), vec!["a", "b", "c", "d"]);
    assert_eq!(words_of("a\u{200B}b"), vec!["a\u{200B}b"]);
}

#[test]
fn words_agree_with_std() {
    let samples = [
        "",
        " ",
        "a",
        " a",
        "a ",
        "a  b",
        "\ta\nb\r\nc ",
        "firefox/jammy 121.0 amd64 [upgradable from: 120.0]",
        "x\u{0085}y\u{1680}z\u{2028}w\u{2029}v\u{202F}u\u{205F}t",
    ];
    for sample in samples {
        let expected: Vec<String> =
            sample.split_whitespace().map(|word| word.to_string()).collect();
        assert_eq!(words_of(sample), expected, "{:?}", sample);
    }
}

#[test]
fn contains_pattern_finds_occurrences() {
    let text = chars("x [upgradable from: 1]");
    assert!(contains_pattern(&text, &chars("[upgradable from:")));
    assert!(contains_pattern(&text, &chars("x")));
    assert!(contains_pattern(&text, &chars("1]")));
    assert!(contains_pattern(&text, &chars("")));
    assert!(contains_pattern(&[], &[]));
    assert!(!contains_pattern(&text, &chars("[upgradable from :")));
    assert!(!contains_pattern(&text, &chars("x [upgradable from: 1] ")));
    assert!(!contains_pattern(&[], &chars("a")));
    assert!(contains_pattern(&chars("aab"), &chars("ab")));
    assert!(!contains_pattern(&chars("abab"), &chars("abb")));
}

#[test]
fn trim_end_matches_strips_every_trailing_occurrence() {
    assert_eq!(trim_end_matches(&chars("120.0]"), ']'), &chars("120.0")[..]);
    assert_eq!(trim_end_matches(&chars("120.0]]]"), ']'), &chars("120.0")[..]);
    assert_eq!(trim_end_matches(&chars("]1]"), ']'), &chars("]1")[..]);
    assert_eq!(trim_end_matches(&chars("120.0"), ']'), &chars("120.0")[..]);
    assert_eq!(trim_end_matches(&chars("]]"), ']'), &chars("")[..]);
    assert_eq!(trim_end_matches(&[], ']'), &chars("")[..]);
}

#[test]
fn same_text_compares_characters() {
    assert!(same_text(&chars("->"), &chars("->")));
    assert!(same_text(&[], &[]));
    assert!(!same_text(&chars("->"), &chars("-")));
    assert!(!same_text(&chars("->"), &chars("=>")));
    assert!(!same_text(&chars("a"), &[]));
}
