use desktop_streamer::text::{
    chars_of, contains_text, find_in, join_texts, lines_of, parse_i32_text, parse_u32_text,
    push_decimal, push_signed_decimal, split_text, split_whitespace_text, str_contains, str_eq,
    str_starts_with, string_of, trim_text, char_is_whitespace, Separator,
};

fn strings(pieces: Vec<Vec<char>>) -> Vec<String> {
    pieces.iter().map(string_of).collect()
}

const SAMPLES: [&str; 14] = [
    "",
    "a",
    "a\nb",
    "a\nb\n",
    "a\r\nb\r\n",
    "\n",
    "\n\n",
    "foo\nbar\n\r\nbaz\r",
    "  lead and trail  ",
    "\ttab\tseparated\t\tfields\t",
    "one\u{a0}two\u{3000}three\u{2003}four",
    " \u{85}x\u{1680}y\u{2028}z\u{205f} ",
    "5\tmodule-null-sink\tsink_name=desktop_streamer_output rate=48000",
    "\r\r\n\r",
];

#[test]
fn lines_agree_with_the_standard_library() {
    for sample in SAMPLES {
        let expected: Vec<String> = sample.lines().map(|l| l.to_string()).collect();
        assert_eq!(strings(lines_of(&chars_of(sample))), expected, "{sample:?}");
    }
    assert_eq!(strings(lines_of(&chars_of("foo\nbar\n\r\nbaz\r"))), vec!["foo", "bar", "", "baz\r"]);
}

#[test]
fn words_agree_with_the_standard_library() {
    for sample in SAMPLES {
        let expected: Vec<String> = sample.split_whitespace().map(|l| l.to_string()).collect();
        assert_eq!(strings(split_whitespace_text(&chars_of(sample))), expected, "{sample:?}");
    }
}

#[test]
fn whitespace_agrees_with_the_standard_library() {
    for code in 0..0x11_0000u32 {
        if let Some(c) = char::from_u32(code) {
            assert_eq!(char_is_whitespace(c), c.is_whitespace(), "{code:x}");
        }
    }
}

#[test]
fn trimming_agrees_with_the_standard_library() {
    for sample in SAMPLES {
        assert_eq!(string_of(&trim_text(&chars_of(sample))), sample.trim(), "{sample:?}");
    }
    assert_eq!(string_of(&trim_text(&chars_of(" \t\n"))), "");
}

#[test]
fn splitting_on_a_character_agrees_with_the_standard_library() {
    for sample in SAMPLES {
        for sep in ['\t', '\n', ':', '+', 'a'] {
            let expected: Vec<String> = sample.split(sep).map(|l| l.to_string()).collect();
            assert_eq!(
                strings(split_text(&chars_of(sample), Separator::Char(sep))),
                expected,
                "{sample:?}"
            );
        }
    }
    assert_eq!(strings(split_text(&chars_of("a::b:"), Separator::Char(':'))), vec!["a", "", "b", ""]);
}

#[test]
fn numbers_are_parsed_as_the_standard_library_parses_them() {
    let samples = [
        "", "0", "7", "007", "+5", "+", "-", "-0", "-5", "+-5", "4294967295", "4294967296",
        "2147483647", "2147483648", "-2147483648", "-2147483649", "99999999999999999999999",
        "12a", "a12", " 12", "12 ", "1_000", "٣", "+0", "00000000000000000000000000000001",
    ];
    for sample in samples {
        assert_eq!(parse_u32_text(&chars_of(sample)), sample.parse::<u32>().ok(), "{sample:?}");
        assert_eq!(parse_i32_text(&chars_of(sample)), sample.parse::<i32>().ok(), "{sample:?}");
    }
    assert_eq!(parse_u32_text(&chars_of("4294967295")), Some(4294967295));
    assert_eq!(parse_i32_text(&chars_of("-2147483648")), Some(-2147483648));
}

#[test]
fn numbers_are_written_in_decimal() {
    for n in [0u64, 1, 9, 10, 11, 99, 100, 128000, 4294967295, u64::MAX] {
        let mut out = String::from("n=");
        push_decimal(&mut out, n);
        assert_eq!(out, format!("n={n}"));
    }
    for v in [0i64, 1, -1, 10, -10, 2147483647, -2147483648, i64::MAX, i64::MIN] {
        let mut out = String::new();
        push_signed_decimal(&mut out, v);
        assert_eq!(out, v.to_string());
    }
}

#[test]
fn patterns_are_found_where_they_first_stand() {
    let hay = chars_of("no element \"x\" no element \"y\"");
    assert_eq!(find_in(&hay, &chars_of("no element")), Some(0));
    assert_eq!(find_in(&hay, &chars_of("element \"y")), Some(18));
    assert_eq!(find_in(&hay, &chars_of("\"")), Some(11));
    assert_eq!(find_in(&hay, &chars_of("z")), None);
    assert_eq!(find_in(&hay, &chars_of("")), Some(0));
    assert_eq!(find_in(&chars_of(""), &chars_of("")), Some(0));
    assert_eq!(find_in(&chars_of(""), &chars_of("a")), None);
    assert_eq!(find_in(&chars_of("aab"), &chars_of("ab")), Some(1));
    assert!(contains_text(&chars_of("céu azul"), &chars_of("u a")));
    assert!(!contains_text(&chars_of("ab"), &chars_of("abc")));
    for sample in SAMPLES {
        for pattern in ["", "a", "\n", "desktop_streamer", "\r\n", "  "] {
            assert_eq!(str_contains(sample, pattern), sample.contains(pattern));
            assert_eq!(str_starts_with(sample, pattern), sample.starts_with(pattern));
            assert_eq!(
                find_in(&chars_of(sample), &chars_of(pattern)),
                sample.find(pattern).map(|at| sample[..at].chars().count())
            );
        }
    }
}

#[test]
fn strings_compare_by_their_characters() {
    assert!(str_eq("", ""));
    assert!(str_eq("wayland", "wayland"));
    assert!(!str_eq("wayland", "waylan"));
    assert!(!str_eq("wayland", "Wayland"));
    assert_eq!(string_of(&chars_of("Câmera 🎤")), "Câmera 🎤");
    assert_eq!(chars_of("Câmera").len(), 6);
}

#[test]
fn pieces_are_joined_with_the_separator() {
    let pieces: Vec<Vec<char>> = vec![chars_of("a"), chars_of("b"), chars_of(""), chars_of("c")];
    assert_eq!(string_of(&join_texts(&pieces, 0, &chars_of(" "))), "a b  c");
    assert_eq!(string_of(&join_texts(&pieces, 2, &chars_of(", "))), ", c");
    assert_eq!(string_of(&join_texts(&pieces, 3, &chars_of(" "))), "c");
    assert_eq!(string_of(&join_texts(&pieces, 4, &chars_of(" "))), "");
}
