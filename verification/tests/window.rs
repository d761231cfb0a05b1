use aw_watcher_lastfm::window::{parse_time_string, TimeSpan, TimeUnit, MAX_SPAN_SECS};
use chrono::TimeDelta;

fn as_delta(span: Option<TimeSpan>) -> Option<TimeDelta> {
    span.map(|s| TimeDelta::seconds(s.num_seconds()))
}

#[test]
fn test_parse_time_string() {
    // Test valid inputs
    assert_eq!(as_delta(parse_time_string("7d")), Some(TimeDelta::days(7)));
    assert_eq!(as_delta(parse_time_string("24h")), Some(TimeDelta::hours(24)));
    assert_eq!(as_delta(parse_time_string("30m")), Some(TimeDelta::minutes(30)));

    // Test invalid inputs
    assert_eq!(parse_time_string(""), None);
    assert_eq!(parse_time_string("30s"), None); // Invalid unit
    assert_eq!(parse_time_string("abc"), None); // Invalid format
    assert_eq!(parse_time_string("-1d"), None); // Negative number
}

#[test]
fn window_tokens_give_exact_seconds() {
    assert_eq!(parse_time_string("7d"), Some(TimeSpan { secs: 604_800 }));
    assert_eq!(parse_time_string("24h"), Some(TimeSpan { secs: 86_400 }));
    assert_eq!(parse_time_string("30m"), Some(TimeSpan { secs: 1_800 }));
    assert_eq!(parse_time_string("1m"), Some(TimeSpan { secs: 60 }));
    assert_eq!(parse_time_string("1h"), Some(TimeSpan { secs: 3_600 }));
    assert_eq!(parse_time_string("1d"), Some(TimeSpan { secs: 86_400 }));
}

#[test]
fn window_of_zero_is_a_span_of_zero() {
    assert_eq!(parse_time_string("0d"), Some(TimeSpan { secs: 0 }));
    assert_eq!(parse_time_string("0h"), Some(TimeSpan { secs: 0 }));
    assert_eq!(parse_time_string("0m"), Some(TimeSpan { secs: 0 }));
}

#[test]
fn window_amount_may_have_leading_zeros() {
    assert_eq!(parse_time_string("007d"), Some(TimeSpan { secs: 604_800 }));
    assert_eq!(parse_time_string("0000000000000000000000001m"), Some(TimeSpan { secs: 60 }));
}

#[test]
fn window_rejects_what_is_not_a_token() {
    for bad in [
        "", "d", "h", "m", "7", "7s", "7D", "7 d", " 7d", "7d ", "7d\n", "+7d", "-7d", "7.5d", "7dd",
        "1d2h", "d7", "7w", "abc", "0x7d", "7\u{b5}", "\u{663}d", "7d\u{0}",
    ] {
        assert_eq!(parse_time_string(bad), None, "{:?}", bad);
    }
}

#[test]
fn window_ends_at_the_longest_span() {
    // 9_223_372_036_854_775 seconds is the longest span; in minutes that is
    // 153_722_867_280_912 and a remainder.
    assert_eq!(
        parse_time_string("153722867280912m"),
        Some(TimeSpan { secs: 153_722_867_280_912 * 60 })
    );
    assert_eq!(parse_time_string("153722867280913m"), None);
    assert_eq!(parse_time_string("106751991167d"), Some(TimeSpan { secs: 106_751_991_167 * 86_400 }));
    assert_eq!(parse_time_string("106751991168d"), None);
    assert_eq!(parse_time_string("9223372036854775807d"), None);
    assert_eq!(parse_time_string("99999999999999999999999999999999999999h"), None);
    assert!(153_722_867_280_912 * 60 <= MAX_SPAN_SECS);
}

#[test]
fn span_constructors_agree_with_the_units() {
    assert_eq!(TimeSpan::of_units(2, TimeUnit::Days), Some(TimeSpan { secs: 172_800 }));
    assert_eq!(TimeSpan::of_units(2, TimeUnit::Hours), Some(TimeSpan { secs: 7_200 }));
    assert_eq!(TimeSpan::of_units(2, TimeUnit::Minutes), Some(TimeSpan { secs: 120 }));
    assert_eq!(TimeSpan::of_units(u64::MAX, TimeUnit::Minutes), None);
    assert_eq!(TimeSpan::seconds(30), Some(TimeSpan { secs: 30 }));
    assert_eq!(TimeSpan::seconds(-1), None);
    assert_eq!(TimeSpan::seconds(MAX_SPAN_SECS), Some(TimeSpan { secs: MAX_SPAN_SECS }));
    assert_eq!(TimeSpan::seconds(MAX_SPAN_SECS + 1), None);
}

#[test]
fn longest_span_is_the_longest_that_chrono_holds() {
    assert!(TimeDelta::try_seconds(MAX_SPAN_SECS).is_some());
    assert!(TimeDelta::try_seconds(MAX_SPAN_SECS + 1).is_none());
}

fn with_regex(re: &regex::Regex, s: &str) -> Option<TimeDelta> {
    let caps = re.captures(s)?;
    let amount: i64 = caps.get(1)?.as_str().parse().ok()?;
    match caps.get(2)?.as_str() {
        "d" => TimeDelta::try_days(amount),
        "h" => TimeDelta::try_hours(amount),
        "m" => TimeDelta::try_minutes(amount),
        _ => None,
    }
}

#[test]
fn window_agrees_with_the_pattern_on_short_strings() {
    let re = regex::Regex::new(r"^(\d+)([dhm])$").unwrap();
    let alphabet = ['0', '7', '9', 'd', 'h', 'm', 's', '-', '+', ' ', '\u{663}', '\n'];
    let mut samples: Vec<String> = vec![String::new()];
    let mut start = 0;
    for _ in 0..3 {
        let end = samples.len();
        for i in start..end {
            for c in alphabet {
                let mut s = samples[i].clone();
                s.push(c);
                samples.push(s);
            }
        }
        start = end;
    }
    assert_eq!(samples.len(), 1 + 12 + 144 + 1728);
    for s in &samples {
        assert_eq!(as_delta(parse_time_string(s)), with_regex(&re, s), "{:?}", s);
    }
}

#[test]
fn window_agrees_with_the_pattern_on_long_amounts() {
    let re = regex::Regex::new(r"^(\d+)([dhm])$").unwrap();
    for amount in [
        "106751991167",
        "106751991168",
        "2562047788015",
        "2562047788016",
        "153722867280912",
        "153722867280913",
        "9223372036854775",
        "9223372036854775807",
        "9223372036854775808",
        "18446744073709551615",
        "18446744073709551616",
        "000000000000000000000000000000000000012",
    ] {
        for unit in ["d", "h", "m"] {
            let s = format!("{}{}", amount, unit);
            assert_eq!(as_delta(parse_time_string(&s)), with_regex(&re, &s), "{:?}", s);
        }
    }
}
