use kick_adapter::decimal::{parse_i64, u64_text};
use kick_adapter::text::{
    chars_of, join_words, same_text, split_first_word, split_words,
    starts_with_command, trim, trim_ats, white_space,
};

fn samples() -> Vec<String> {
    let mut v: Vec<String> = [
        "", " ", "a", " a ", "\t a b \n", "a  b", "\u{a0}x\u{3000}", "@a", "@@ b", "caf\u{e9} \u{1f600}",
        "\u{2003}\u{1f600}\u{85}", "one two  three\u{2028}four", "\u{200b}x\u{200b}", "!ban @x y z",
    ]
    .iter()
    .map(|s| s.to_string())
    .collect();
    v.push("x".repeat(300));
    v
}

#[test]
fn white_space_is_that_of_unicode() {
    for n in 0..=0x10ffffu32 {
        if let Some(c) = char::from_u32(n) {
            assert_eq!(white_space(c), c.is_whitespace(), "{:x}", n);
        }
    }
}

#[test]
fn trimming_and_splitting_agree_with_the_standard_library() {
    for s in samples() {
        assert_eq!(trim(&s), s.trim());
        assert_eq!(trim_ats(&s), s.trim_start_matches('@'));
        assert_eq!(chars_of(&s), s.chars().collect::<Vec<char>>());
        let words: Vec<String> = s.split_whitespace().map(|w| w.to_string()).collect();
        assert_eq!(split_words(&s), words);
        let first = match s.split_once(char::is_whitespace) {
            Some((a, b)) => (a, b),
            None => (s.as_str(), ""),
        };
        assert_eq!(split_first_word(&s), first);
        for from in 0..=words.len() {
            assert_eq!(join_words(&words, from), words[from..].join(" "));
        }
    }
}

#[test]
fn texts_are_compared_as_the_standard_library_does() {
    for a in samples() {
        for b in samples() {
            assert_eq!(same_text(&a, &b), a == b);
        }
    }
}

/// Only these can stand for an ASCII character in the lower case of a text.
fn chars_with_ascii_lower_case() -> Vec<char> {
    (0..=0x10ffffu32)
        .filter_map(char::from_u32)
        .filter(|c| c.to_lowercase().any(|l| l.is_ascii()))
        .collect()
}

#[test]
fn command_words_are_found_in_the_lower_case_of_a_text() {
    let candidates = chars_with_ascii_lower_case();
    assert!(candidates.contains(&'\u{212a}'));
    assert!(candidates.contains(&'\u{130}'));
    for word in ["!ban", "!timeout"] {
        let chars: Vec<char> = word.chars().collect();
        for i in 0..chars.len() {
            for c in candidates.iter().chain(['\u{e9}', '\u{3a3}', '\u{1f600}'].iter()) {
                let mut t = chars.clone();
                t[i] = *c;
                for tail in ["", " x", "\u{3a3}"] {
                    let s: String = t.iter().collect::<String>() + tail;
                    assert_eq!(
                        starts_with_command(&s, word),
                        s.to_lowercase().starts_with(word),
                        "{:?}",
                        s
                    );
                }
            }
        }
        assert!(starts_with_command(&word.to_uppercase(), word));
        assert!(!starts_with_command(&word[1..], word));
    }
}

#[test]
fn numbers_are_read_as_the_standard_library_does() {
    for s in [
        "0", "7", "-7", "+7", "-0", "007", "", "+", "-", "--1", "+-1", "1a", "a1", "1.5", "1_000", " 1", "1 ",
        "9223372036854775807", "9223372036854775808", "-9223372036854775808", "-9223372036854775809",
        "18446744073709551615", "99999999999999999999999999999999999999999999999", "\u{663}",
        "000000000000000000000000000000000000000000000000000000012",
    ] {
        assert_eq!(parse_i64(s), s.parse::<i64>().ok(), "{:?}", s);
    }
}

#[test]
fn numbers_are_written_as_the_standard_library_does() {
    for n in [0, 1, 9, 10, 11, 99, 100, 1234567890, u64::MAX] {
        assert_eq!(u64_text(n), n.to_string());
    }
}

#[test]
fn written_numbers_are_read_back() {
    for n in [i64::MIN, -300, -1, 0, 300, i64::MAX] {
        assert_eq!(parse_i64(&n.to_string()), Some(n));
    }
}
