//! The operations on texts, held against those of the standard library.

use nexus_chat::text::{
    after_prefix, alphanumeric, bracketed_of, capped_nonempty, chars_of, clipped, count, decimal_of,
    erase_last, first_word_of, found, found_char, has, has_prefix, has_suffix, joined, lines_of,
    not_after, number_in, replaced, rest_of, rfound_char, same, space, start_of, trimmed,
    trimmed_end, trimmed_end_char, trimmed_end_marks, trimmed_end_text, trimmed_start,
    trimmed_start_char, trimmed_start_text, upper_of,
};

const SAMPLES: [&str; 26] = [
    "",
    " ",
    "a",
    "abc",
    "  padded  ",
    "\u{a0}nbsp\u{a0}",
    "\u{2003}em\u{2003}",
    "one\ntwo",
    "one\r\ntwo\r\n",
    "\n",
    "\n\n",
    "a\r",
    "a\rb\n",
    "ÀÉÎ straße İ",
    "ΑΣ",
    "日本語 text",
    "```json\n[1]\n```",
    "aaaa",
    "abab",
    "x/y//",
    "[a] and [b]",
    "]mixed[",
    "123",
    "+45",
    "007",
    "tail…!?",
];

const PATTERNS: [&str; 10] = ["a", "ab", "\n", "```", "[", "]", "/", "日", "two", "aa"];

fn char_pos(s: &str, byte: usize) -> usize {
    s[..byte].chars().count()
}

#[test]
fn whitespace_is_that_of_unicode() {
    for code in 0..=0x10ffffu32 {
        if let Some(c) = char::from_u32(code) {
            assert_eq!(space(c), c.is_whitespace(), "{code:x}");
        }
    }
}

#[test]
fn trimming_agrees() {
    for s in SAMPLES {
        assert_eq!(trimmed(s), s.trim());
        assert_eq!(trimmed_start(s), s.trim_start());
        assert_eq!(trimmed_end(s), s.trim_end());
        assert_eq!(trimmed_start_char(s, 'a'), s.trim_start_matches('a'));
        assert_eq!(trimmed_end_char(s, '/'), s.trim_end_matches('/'));
        assert_eq!(
            trimmed_end_marks(s),
            s.trim_end_matches(|c: char| !c.is_ascii_alphanumeric())
        );
        for p in PATTERNS {
            assert_eq!(trimmed_start_text(s, p), s.trim_start_matches(p));
            assert_eq!(trimmed_end_text(s, p), s.trim_end_matches(p));
        }
        assert_eq!(first_word_of(s), s.split_whitespace().next().unwrap_or(""));
    }
}

#[test]
fn searching_agrees() {
    for s in SAMPLES {
        assert_eq!(count(s), s.chars().count());
        assert_eq!(chars_of(s), s.chars().collect::<Vec<char>>());
        for p in PATTERNS {
            assert_eq!(found(s, p), s.find(p).map(|b| char_pos(s, b)), "{s:?} {p:?}");
            assert_eq!(has(s, p), s.contains(p));
            assert_eq!(has_prefix(s, p), s.starts_with(p));
            assert_eq!(has_suffix(s, p), s.ends_with(p));
            assert_eq!(after_prefix(s, p), s.strip_prefix(p));
            assert_eq!(replaced(s, p, "-+-"), s.replace(p, "-+-"));
            let c = p.chars().next().unwrap();
            assert_eq!(found_char(s, c), s.find(c).map(|b| char_pos(s, b)));
            assert_eq!(rfound_char(s, c), s.rfind(c).map(|b| char_pos(s, b)));
            assert_eq!(same(s, p), s == p);
            assert_eq!(not_after(s, p), s <= p, "{s:?} {p:?}");
        }
    }
}

#[test]
fn first_brackets_are_found() {
    let part = |s: &'static str| bracketed_of(s, '[', ']');
    assert_eq!(part("a [b [c] d] e [f]"), Some("[b [c] d]"));
    assert_eq!(part("[]"), Some("[]"));
    assert_eq!(part(r#"x ["a ] b", "\" ]"] y ]"#), Some(r#"["a ] b", "\" ]"]"#));
    assert_eq!(part(r#"["a\\"] z]"#), Some(r#"["a\\"]"#));
    assert_eq!(part("] then ["), None);
    assert_eq!(part("[ never closed"), None);
    assert_eq!(part(r#"["open string ]"#), None);
    assert_eq!(part("[\"\\"), None);
    assert_eq!(part("none"), None);
    assert_eq!(bracketed_of("é {ü {} ü} é}", '{', '}'), Some("{ü {} ü}"));
}

#[test]
fn lines_and_joins_agree() {
    for s in SAMPLES {
        let expected: Vec<String> = s.lines().map(|l| l.to_string()).collect();
        assert_eq!(lines_of(s), expected, "{s:?}");
        assert_eq!(joined(&expected, ", "), expected.join(", "));
    }
}

#[test]
fn cutting_agrees() {
    for s in SAMPLES {
        for n in 0..6 {
            let head: String = s.chars().take(n).collect();
            assert_eq!(clipped(s, n), head);
            if n <= count(s) {
                assert_eq!(start_of(s, n), head);
                assert_eq!(rest_of(s, n), s.chars().skip(n).collect::<String>());
            }
        }
        let mut a = s.to_string();
        let mut b = s.to_string();
        erase_last(&mut a);
        b.pop();
        assert_eq!(a, b);
    }
}

#[test]
fn cases_and_numbers_agree() {
    for s in SAMPLES {
        assert_eq!(upper_of(s), s.to_ascii_uppercase());
        assert_eq!(number_in(s, u64::MAX), s.parse::<u64>().ok(), "{s:?}");
        assert_eq!(number_in(s, 255), s.parse::<u8>().ok().map(u64::from));
    }
    for s in ["18446744073709551615", "18446744073709551616", "+", "-1", "00000000000000000000001"] {
        assert_eq!(number_in(s, u64::MAX), s.parse::<u64>().ok(), "{s:?}");
    }
    for n in [0u64, 9, 10, 99, 100, 12345, u64::MAX] {
        assert_eq!(decimal_of(n), n.to_string());
    }
    for c in ['0', '9', 'a', 'Z', 'é', '-', '_'] {
        assert_eq!(alphanumeric(c), c.is_ascii_alphanumeric());
    }
    let items: Vec<String> = ["a", "", "b", "c"].iter().map(|s| s.to_string()).collect();
    assert_eq!(capped_nonempty(&items, 2), vec!["a".to_string(), "b".to_string()]);
}
