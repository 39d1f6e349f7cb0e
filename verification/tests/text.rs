use cpufreq_applet::text::{
    chars_of, index_of, parse_number, same_text, split_lines, split_words, string_of, strip_prefix,
    strip_suffix, to_decimal, trim, trim_end, trim_start, CharClass,
};

fn texts(parts: &[&[char]]) -> Vec<String> {
    parts.iter().map(|p| string_of(p)).collect()
}

#[test]
fn white_space_is_that_of_char() {
    for n in 0..=0x10ffff_u32 {
        if let Some(c) = char::from_u32(n) {
            assert_eq!(CharClass::Space.contains(c), c.is_whitespace(), "{n:#x}");
        }
    }
}

#[test]
fn other_classes() {
    assert!(CharClass::Gap.contains(' '));
    assert!(CharClass::Gap.contains('\t'));
    assert!(CharClass::Gap.contains(':'));
    assert!(!CharClass::Gap.contains('\n'));
    assert!(CharClass::Quote.contains('"'));
    assert!(!CharClass::Quote.contains('\''));
}

const SAMPLES: [&str; 16] = [
    "",
    " ",
    "performance\n",
    "  a b  c ",
    "\u{a0}x\u{3000}",
    "one\ntwo\r\nthree",
    "one\n\ntwo\n",
    "\r\n",
    "a\r",
    "a\rb\n",
    "a\r\r\nb",
    "\n\n",
    "grün ß\tende",
    "tab\tsep\u{2028}line",
    "cpu  1 2 3\ncpu0 4 5 6\nintr 7\n",
    "x\u{85}y",
];

#[test]
fn trimming_is_that_of_str() {
    for s in SAMPLES {
        let c = chars_of(s);
        assert_eq!(string_of(trim(&c, CharClass::Space)), s.trim());
        assert_eq!(string_of(trim_start(&c, CharClass::Space)), s.trim_start());
        assert_eq!(string_of(trim_end(&c, CharClass::Space)), s.trim_end());
    }
    let quoted = chars_of("\"\"a\"b\"");
    assert_eq!(string_of(trim(&quoted, CharClass::Quote)), "a\"b");
    let gap = chars_of("\t: \tIntel: x ");
    assert_eq!(string_of(trim_start(&gap, CharClass::Gap)), "Intel: x ");
}

#[test]
fn lines_are_those_of_str() {
    for s in SAMPLES {
        let c = chars_of(s);
        let expected: Vec<String> = s.lines().map(String::from).collect();
        assert_eq!(texts(&split_lines(&c)), expected, "{s:?}");
    }
}

#[test]
fn words_are_those_of_str() {
    for s in SAMPLES {
        let c = chars_of(s);
        let expected: Vec<String> = s.split_whitespace().map(String::from).collect();
        assert_eq!(texts(&split_words(&c)), expected, "{s:?}");
    }
}

#[test]
fn finding_a_character() {
    assert_eq!(index_of(&chars_of("ab cd ef"), ' '), 2);
    assert_eq!(index_of(&chars_of("abc"), ' '), 3);
    assert_eq!(index_of(&chars_of(""), ' '), 0);
}

#[test]
fn prefixes_and_suffixes() {
    let c = chars_of("MemTotal: 5 kB");
    assert_eq!(strip_prefix(&c, "MemTotal:").map(string_of), Some(" 5 kB".to_string()));
    assert_eq!(strip_prefix(&c, "MemFree:"), None);
    assert_eq!(strip_suffix(&c, "kB").map(string_of), Some("MemTotal: 5 ".to_string()));
    assert_eq!(strip_suffix(&c, "MB"), None);
    assert_eq!(strip_prefix(&chars_of("cp"), "cpu"), None);
    assert_eq!(strip_suffix(&chars_of("B"), "kB"), None);
    assert_eq!(strip_prefix(&chars_of("cpu"), "cpu").map(string_of), Some(String::new()));
    assert!(same_text(&chars_of("x"), &chars_of("x")));
    assert!(!same_text(&chars_of("x"), &chars_of("y")));
    assert!(!same_text(&chars_of("x"), &chars_of("xx")));
}

#[test]
fn numbers_are_those_of_u64() {
    let samples = [
        "0",
        "7",
        "42",
        "+42",
        "++1",
        "-1",
        "-0",
        "+",
        "",
        "00012",
        "12a",
        " 1",
        "1 ",
        "1_000",
        "18446744073709551615",
        "18446744073709551616",
        "18446744073709551620",
        "99999999999999999999999",
        "000000000000000000000000000018446744073709551615",
        "\u{661}",
    ];
    for s in samples {
        assert_eq!(parse_number(&chars_of(s), u64::MAX), s.parse::<u64>().ok(), "{s:?}");
        assert_eq!(
            parse_number(&chars_of(s), u32::MAX as u64),
            s.parse::<u32>().ok().map(u64::from),
            "{s:?}"
        );
    }
    assert_eq!(parse_number(&chars_of("5"), 4), None);
    assert_eq!(parse_number(&chars_of("4"), 4), Some(4));
}

#[test]
fn decimals_are_those_of_u64() {
    for n in [0, 1, 9, 10, 99, 100, 2000, 3_600_000, u64::MAX - 1, u64::MAX] {
        assert_eq!(to_decimal(n), n.to_string());
        assert_eq!(parse_number(&chars_of(&to_decimal(n)), u64::MAX), Some(n));
    }
}
