use geostorm_alert_service::text::{eq_ignore_ascii_case, is_blank, is_whitespace, trim};

#[test]
fn trim_removes_ascii_whitespace() {
    assert_eq!(trim("  kp index 7 \t\n"), "kp index 7");
    assert_eq!(trim("no-padding"), "no-padding");
    assert_eq!(trim(""), "");
    assert_eq!(trim(" \r\n\t "), "");
}

#[test]
fn trim_removes_unicode_whitespace() {
    let padded = "\u{3000}\u{a0}G3 storm\u{2009}\u{85}";
    assert_eq!(trim(padded), "G3 storm");
    assert_eq!(trim(padded), padded.trim());
}

#[test]
fn trim_keeps_inner_whitespace() {
    assert_eq!(trim(" a  b "), "a  b");
}

#[test]
fn whitespace_agrees_with_std() {
    for code in 0u32..0x3100 {
        if let Some(c) = char::from_u32(code) {
            assert_eq!(is_whitespace(c), c.is_whitespace(), "code point {code:#x}");
        }
    }
    for c in ['\u{feff}', '\u{200b}', '\u{180e}', 'x', '\u{10ffff}'] {
        assert_eq!(is_whitespace(c), c.is_whitespace());
    }
}

#[test]
fn trim_agrees_with_std() {
    let samples = [
        "", " ", "a", " a", "a ", "\u{2028}x\u{2029}", "\u{1680}\u{202f}y z\u{205f}",
        "é ", " ü", "\u{b}\u{c}q\u{d}",
    ];
    for s in samples {
        assert_eq!(trim(s), s.trim(), "sample {s:?}");
    }
}

#[test]
fn blank_text() {
    assert!(is_blank(""));
    assert!(is_blank(" \t\u{3000}"));
    assert!(!is_blank(" x "));
}

#[test]
fn ascii_case_insensitive_equality() {
    assert!(eq_ignore_ascii_case("true", "true"));
    assert!(eq_ignore_ascii_case("TrUe", "true"));
    assert!(eq_ignore_ascii_case("TRUE", "true"));
    assert!(!eq_ignore_ascii_case("true ", "true"));
    assert!(!eq_ignore_ascii_case("yes", "true"));
    assert!(!eq_ignore_ascii_case("tru", "true"));
    assert!(eq_ignore_ascii_case("Ünïcode", "Ünïcode"));
    assert!(!eq_ignore_ascii_case("ü", "Ü"));
    assert!(!eq_ignore_ascii_case("[", "{"));
}

#[test]
fn trimming_twice_is_trimming_once() {
    for s in ["  x y  ", "\u{3000}", "abc", " \u{a0}z"] {
        assert_eq!(trim(trim(s)), trim(s));
    }
}
