use kbuild::text::{
    cat2, cat3, cat4, cat5, contains, copy_opt, copy_texts, decimal_text, find_from, from_range, join,
    lines, occurs, parse_u64, push_text, push_texts, push_without, replace_char, rest_after_last,
    same, split_once, strip_prefix, strip_suffix, tail, to_chars, trim, trim_by, CharClass,
};

const SAMPLES: [&str; 24] = [
    "",
    "a",
    "\n",
    "\r\n",
    "\r",
    "a\n",
    "a\nb",
    "a\r\nb\r\n",
    "a\n\nb\n",
    "a\r",
    "a\rb\n",
    "\n\n\n",
    "  padded\t",
    "\u{a0}wide\u{3000}",
    "\"quoted\"",
    "\"\"",
    "\"",
    "key = value = more",
    "=",
    "a=b",
    "no separator",
    "x/y/z",
    "caf\u{e9} \u{1f980}\u{301}",
    "\u{85}\u{2028}\u{feff}",
];

fn owned(list: &[&str]) -> Vec<String> {
    list.iter().map(|s| s.to_string()).collect()
}

#[test]
fn lines_split_like_the_standard_library() {
    for s in SAMPLES {
        let expected: Vec<String> = s.lines().map(String::from).collect();
        assert_eq!(lines(s), expected, "{s:?}");
    }
    assert_eq!(lines("a\r\nb\n"), owned(&["a", "b"]));
}

#[test]
fn trim_agrees_with_the_standard_library() {
    for s in SAMPLES {
        assert_eq!(trim(s), s.trim(), "{s:?}");
        assert_eq!(trim_by(s, CharClass::Only('"')), s.trim_matches('"'), "{s:?}");
    }
    assert_eq!(trim_by("\"\"a\"b\"", CharClass::Only('"')), "a\"b");
}

#[test]
fn every_character_is_classified_as_the_standard_library_does() {
    for c in '\0'..=char::MAX {
        assert_eq!(CharClass::Space.test(c), c.is_whitespace(), "{c:?}");
    }
    assert!(CharClass::Only('x').test('x'));
    assert!(!CharClass::Only('x').test('y'));
}

#[test]
fn splitting_agrees_with_the_standard_library() {
    for s in SAMPLES {
        for c in ['=', '/', 'a', '\n'] {
            let expected = s.split_once(c).map(|(a, b)| (a.to_string(), b.to_string()));
            assert_eq!(split_once(s, c), expected, "{s:?}");
            assert_eq!(Some(rest_after_last(s, c).as_str()), s.rsplit(c).next(), "{s:?}");
        }
    }
}

#[test]
fn affixes_agree_with_the_standard_library() {
    for s in SAMPLES {
        for affix in ["", "a", "\"", "key", "more", "no separator and more"] {
            assert_eq!(strip_prefix(s, affix).as_deref(), s.strip_prefix(affix), "{s:?}");
            assert_eq!(strip_suffix(s, affix).as_deref(), s.strip_suffix(affix), "{s:?}");
        }
    }
    assert_eq!(strip_suffix("hello.ko", ".ko").as_deref(), Some("hello"));
    assert_eq!(strip_prefix("host: x", "host: ").as_deref(), Some("x"));
}

#[test]
fn searching_agrees_with_the_standard_library() {
    for hay in SAMPLES {
        let chars = to_chars(hay);
        for needle in SAMPLES {
            assert_eq!(contains(&chars, needle), hay.contains(needle), "{hay:?} {needle:?}");
        }
    }
    let hay = to_chars("abcab");
    let needle = to_chars("ab");
    assert!(occurs(&hay, &needle, 0));
    assert!(!occurs(&hay, &needle, 1));
    assert!(occurs(&hay, &needle, 3));
    assert_eq!(find_from(&hay, 'b', 2), 4);
    assert_eq!(find_from(&hay, 'z', 0), 5);
}

#[test]
fn characters_and_back() {
    for s in SAMPLES {
        let chars = to_chars(s);
        assert_eq!(chars, s.chars().collect::<Vec<char>>());
        assert_eq!(from_range(&chars, 0, chars.len()), s);
    }
    assert_eq!(from_range(&to_chars("h\u{e9}llo"), 1, 3), "\u{e9}l");
}

#[test]
fn equality_is_of_contents() {
    for a in SAMPLES {
        for b in SAMPLES {
            assert_eq!(same(a, b), a == b);
        }
    }
}

#[test]
fn concatenation() {
    assert_eq!(cat2("a", "b"), "ab");
    assert_eq!(cat3("a", "", "c"), "ac");
    assert_eq!(cat4("a", "b", "c", "d"), "abcd");
    assert_eq!(cat5("", "\u{e9}", "c", "d", "e"), "\u{e9}cde");
}

#[test]
fn lists_of_texts() {
    let mut v = owned(&["a"]);
    push_text(&mut v, "b");
    push_texts(&mut v, &owned(&["x", "y", "z"]), 1);
    assert_eq!(v, owned(&["a", "b", "y", "z"]));
    assert_eq!(copy_texts(&v), v);
    assert_eq!(copy_opt(&Some("a".to_string())), Some("a".to_string()));
    assert_eq!(copy_opt(&None), None);
    assert_eq!(join(&v, 0, ", "), "a, b, y, z");
    assert_eq!(join(&v, 2, "\n"), "y\nz");
    assert_eq!(join(&v, 4, "\n"), "");
}

#[test]
fn replacing_and_dropping_characters() {
    assert_eq!(replace_char("my-own-crate", '-', '_'), "my_own_crate");
    assert_eq!(replace_char("plain", '-', '_'), "plain");
    let mut buf = to_chars("x");
    push_without(&mut buf, "a\r\nb\r", '\r');
    assert_eq!(buf, to_chars("xa\nb"));
}

#[test]
fn tail_keeps_the_last_lines() {
    assert_eq!(tail("a\nb\nc\n", 2), "b\nc");
    assert_eq!(tail("a\nb", 5), "a\nb");
    assert_eq!(tail("a\nb", 0), "");
    assert_eq!(tail("", 20), "");
    for s in SAMPLES {
        for n in 0..4 {
            let all: Vec<&str> = s.lines().collect();
            assert_eq!(tail(s, n), all[all.len().saturating_sub(n)..].join("\n"), "{s:?}");
        }
    }
}

#[test]
fn numbers_are_read_like_the_standard_library_does() {
    for s in [
        "0", "7", "120", "+5", "+", "-1", "", " 1", "1 ", "1_000", "0x10", "00012", "1e3",
        "18446744073709551615", "18446744073709551616", "99999999999999999999", "\u{661}", "++1",
    ] {
        assert_eq!(parse_u64(s), s.parse::<u64>().ok(), "{s:?}");
    }
    assert_eq!(parse_u64("120"), Some(120));
}

#[test]
fn numbers_are_written_in_decimal() {
    for n in [0, 1, 9, 10, 99, 120, 1_000_000, u64::MAX] {
        assert_eq!(decimal_text(n), n.to_string());
        assert_eq!(parse_u64(&decimal_text(n)), Some(n));
    }
}
