use agent::text::{comes_before, decimal_text, is_blank, same_text, trim_end_of};
use agent::{Duration, Instant};

#[test]
fn blank_texts_are_those_that_trim_to_nothing() {
    for code in 0..=0x10_ffff_u32 {
        if let Some(c) = char::from_u32(code) {
            assert_eq!(is_blank(&c.to_string()), c.is_whitespace(), "U+{code:04X}");
        }
    }
    assert!(is_blank(""));
    assert!(is_blank(" \t\n\u{3000}"));
    assert!(!is_blank("  x  "));
}

#[test]
fn texts_are_ordered_as_strings_are() {
    let texts = ["", "a", "ab", "b", "B", "\u{e9}", "\u{ffff}", "\u{10000}", "a\u{0}"];
    for a in texts {
        for b in texts {
            assert_eq!(comes_before(a, b), a < b);
            assert_eq!(same_text(a, b), a == b);
        }
    }
}

#[test]
fn numbers_are_written_in_decimal() {
    for n in [0, 7, 10, 99, 100, 503, 65_535, u64::MAX] {
        assert_eq!(decimal_text(n), n.to_string());
    }
}

#[test]
fn trailing_characters_are_trimmed() {
    assert_eq!(trim_end_of("a/b//", '/'), "a/b");
    assert_eq!(trim_end_of("///", '/'), "");
    assert_eq!(trim_end_of("/a", '/'), "/a");
    assert_eq!(trim_end_of("", '/'), "");
}

#[test]
fn spans_count_nanoseconds() {
    assert_eq!(Duration::from_secs(2).as_nanos(), 2_000_000_000);
    assert_eq!(Duration::from_millis(1_234).as_nanos(), 1_234_000_000);
    assert_eq!(Duration::from_nanos(u64::MAX).as_nanos(), u64::MAX as u128);
    assert_eq!(Duration::from_millis(1_999).as_secs(), 1);
    assert_eq!(Duration::from_secs(u64::MAX).as_secs(), u64::MAX);
}

#[test]
fn instants_are_a_span_apart() {
    let early = Instant::at(Duration::from_secs(3));
    let late = early.plus(Duration::from_millis(500));
    assert_eq!(late.saturating_duration_since(early), Duration::from_millis(500));
    assert_eq!(early.saturating_duration_since(late), Duration::from_secs(0));
    assert_eq!(late.since_origin(), Duration::from_millis(3_500));
}
