use aw_watcher_lastfm::text::{
    parse_digits, parse_i64, parse_u16, render_decimal, render_signed, replace_all, same_text,
};

fn strings_over(alphabet: &[char], longest: usize) -> Vec<String> {
    let mut samples: Vec<String> = vec![String::new()];
    let mut start = 0;
    for _ in 0..longest {
        let end = samples.len();
        for i in start..end {
            for c in alphabet {
                let mut s = samples[i].clone();
                s.push(*c);
                samples.push(s);
            }
        }
        start = end;
    }
    samples
}

#[test]
fn digits_are_read_by_their_value() {
    assert_eq!(parse_digits("0", 100), Some(0));
    assert_eq!(parse_digits("42", 100), Some(42));
    assert_eq!(parse_digits("0042", 100), Some(42));
    assert_eq!(parse_digits("100", 100), Some(100));
    assert_eq!(parse_digits("101", 100), None);
    assert_eq!(parse_digits("18446744073709551615", u64::MAX), Some(u64::MAX));
    assert_eq!(parse_digits("18446744073709551616", u64::MAX), None);
    assert_eq!(parse_digits("99999999999999999999999999", u64::MAX), None);
}

#[test]
fn digits_reject_anything_else() {
    for bad in ["", "+1", "-1", " 1", "1 ", "1a", "a", "1.0", "\u{661}", "1\u{661}"] {
        assert_eq!(parse_digits(bad, u64::MAX), None, "{:?}", bad);
    }
}

#[test]
fn signed_numbers_are_read_as_the_standard_library_reads_them() {
    for s in strings_over(&['0', '1', '9', '-', '+', ' ', 'a'], 4) {
        assert_eq!(parse_i64(&s), s.parse::<i64>().ok(), "{:?}", s);
    }
    for s in [
        "9223372036854775807",
        "9223372036854775808",
        "-9223372036854775808",
        "-9223372036854775809",
        "+9223372036854775807",
        "+9223372036854775808",
        "-0",
        "+0",
        "00000000000000000000000000007",
        "-00000000000000000000000000007",
        "1700000000",
        "\u{661}",
        "-\u{661}",
    ] {
        assert_eq!(parse_i64(s), s.parse::<i64>().ok(), "{:?}", s);
    }
    assert_eq!(parse_i64("-9223372036854775808"), Some(i64::MIN));
    assert_eq!(parse_i64("1700000000"), Some(1_700_000_000));
}

#[test]
fn ports_are_read_as_the_standard_library_reads_them() {
    for s in strings_over(&['0', '5', '6', '-', '+', ' '], 5) {
        assert_eq!(parse_u16(&s), s.parse::<u16>().ok(), "{:?}", s);
    }
    for s in ["65535", "65536", "+65535", "+65536", "0065535", "5600", "-0", "99999999999999999999"] {
        assert_eq!(parse_u16(s), s.parse::<u16>().ok(), "{:?}", s);
    }
    assert_eq!(parse_u16("5600"), Some(5600));
    assert_eq!(parse_u16("65536"), None);
}

#[test]
fn numbers_are_written_in_their_shortest_form() {
    assert_eq!(render_decimal(0), "0");
    assert_eq!(render_decimal(7), "7");
    assert_eq!(render_decimal(10), "10");
    assert_eq!(render_decimal(1_700_000_000), "1700000000");
    assert_eq!(render_decimal(u64::MAX), "18446744073709551615");
    assert_eq!(render_signed(0), "0");
    assert_eq!(render_signed(-1), "-1");
    assert_eq!(render_signed(1_699_395_200), "1699395200");
    assert_eq!(render_signed(i64::MAX), "9223372036854775807");
    assert_eq!(render_signed(i64::MIN), "-9223372036854775808");
}

#[test]
fn written_numbers_read_back() {
    for n in [0u64, 1, 9, 10, 99, 100, 12345, u64::MAX - 1, u64::MAX] {
        assert_eq!(parse_digits(&render_decimal(n), u64::MAX), Some(n));
        assert_eq!(render_decimal(n), n.to_string());
    }
    for n in [i64::MIN, i64::MIN + 1, -10, -1, 0, 1, 10, i64::MAX - 1, i64::MAX] {
        assert_eq!(parse_i64(&render_signed(n)), Some(n));
        assert_eq!(render_signed(n), n.to_string());
    }
}

#[test]
fn replacing_agrees_with_the_standard_library() {
    let patterns = ["", ".log", "a", "aa", "ab", "\u{e9}", "l\u{f6}g"];
    let texts = [
        "",
        "watcher.log",
        "watcher-testing.log",
        "a.log.log",
        ".log",
        ".lo",
        "log",
        "aaa",
        "aaaa",
        "abab",
        "caf\u{e9}.log",
        "\u{e9}\u{e9}",
        "l\u{f6}g.l\u{f6}g",
    ];
    for from in patterns {
        for text in texts {
            for to in ["-old.log", "", "a", "\u{fc}"] {
                assert_eq!(replace_all(text, from, to), text.replace(from, to), "{:?} {:?} {:?}", text, from, to);
            }
        }
    }
    assert_eq!(replace_all("watcher.log", ".log", "-old.log"), "watcher-old.log");
}

#[test]
fn same_text_is_equality_of_characters() {
    assert!(same_text("", ""));
    assert!(same_text("true", "true"));
    assert!(!same_text("true", "True"));
    assert!(!same_text("true", "true "));
    assert!(!same_text("true", "tru"));
    assert!(same_text("caf\u{e9}", "caf\u{e9}"));
    assert!(!same_text("caf\u{e9}", "cafe\u{301}"));
}
