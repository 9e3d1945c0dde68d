use sim_core::text::{decimal_string, is_blank, trim};

#[test]
fn blank_means_nothing_but_white_space() {
    assert!(is_blank(""));
    assert!(is_blank("  \t\n\r "));
    assert!(is_blank("\u{3000}\u{a0}\u{2009}"));
    assert!(!is_blank(" x "));
    assert!(!is_blank("."));
    for s in ["", " ", "a", " a", "\u{85}", "\u{200b}", "\u{feff}"] {
        assert_eq!(is_blank(s), s.trim().is_empty(), "{s:?}");
    }
}

#[test]
fn trim_agrees_with_the_standard_library() {
    for s in ["", "  ", " ab ", "\tsrc-1\n", "a b", "\u{2003}x\u{3000}", "x"] {
        assert_eq!(trim(s), s.trim(), "{s:?}");
    }
}

#[test]
fn decimal_rendering_agrees_with_format() {
    for n in [0u64, 7, 10, 99, 100, 4000, 1_000_001, u64::MAX] {
        assert_eq!(decimal_string(n), format!("{n}"));
    }
}
