//! Text operations against those of the standard library.

use session_control::text::{
    after_prefix, begins_with, comes_before, decimal_text, digits_of, is_blank, is_white, join,
    path_segments, replace_text, same, trim_text,
};

const SAMPLES: [&str; 12] = [
    "",
    " ",
    "a",
    "  a b  ",
    "\u{a0}x\u{3000}",
    "\t\r\n",
    "/api/x//y/",
    "{{goal}} and {{goal}}",
    "äöü ß → 日本",
    "2026-08-29T10:00:00Z",
    "\u{200b}zero width\u{200b}",
    "aaa",
];

#[test]
fn white_space_is_the_unicode_property() {
    for n in 0..=0x10FFFFu32 {
        if let Some(c) = char::from_u32(n) {
            assert_eq!(is_white(c), c.is_whitespace(), "U+{n:04X}");
        }
    }
}

#[test]
fn trimming_matches_the_standard_library() {
    for s in SAMPLES {
        assert_eq!(trim_text(s), s.trim());
        assert_eq!(is_blank(s), s.trim().is_empty());
    }
}

#[test]
fn trimming_again_changes_nothing() {
    for s in SAMPLES {
        let once = trim_text(s);
        assert_eq!(trim_text(&once), once);
    }
}

#[test]
fn replacing_matches_the_standard_library() {
    for s in SAMPLES {
        for from in ["{{goal}}", "a", "aa", "/", " ", "nothing"] {
            for to in ["", "X", "a", "{{goal}}"] {
                assert_eq!(replace_text(s, from, to), s.replace(from, to));
            }
        }
    }
}

#[test]
fn replacing_what_is_absent_leaves_the_text() {
    assert_eq!(replace_text("no variables here", "{{eta}}", "soon"), "no variables here");
}

#[test]
fn order_and_equality_match_the_standard_library() {
    for a in SAMPLES {
        for b in SAMPLES {
            assert_eq!(same(a, b), a == b);
            assert_eq!(comes_before(a, b), a < b);
            assert_eq!(begins_with(a, b), a.starts_with(b));
            assert_eq!(after_prefix(a, b).as_deref(), a.strip_prefix(b));
        }
    }
}

#[test]
fn segments_are_the_non_empty_parts() {
    for s in SAMPLES {
        let parts: Vec<&str> = s.split('/').filter(|p| !p.is_empty()).collect();
        assert_eq!(path_segments(s), parts);
    }
}

#[test]
fn digits_are_kept_in_order() {
    assert_eq!(digits_of("2026-08-29T10:00:00Z"), "20260829100000");
    assert_eq!(digits_of("none ٣"), "");
}

#[test]
fn decimal_notation_matches_the_standard_library() {
    for n in [0, 1, 9, 10, 11, 99, 100, 12345, u64::MAX - 1, u64::MAX] {
        assert_eq!(decimal_text(n), n.to_string());
    }
}

#[test]
fn joining_puts_the_separator_between() {
    assert_eq!(join(&vec![], "; "), "");
    assert_eq!(join(&vec!["a".into()], "; "), "a");
    assert_eq!(join(&vec!["a".into(), "".into(), "c".into()], "; "), "a; ; c");
}
