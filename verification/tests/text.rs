use kicad_sch_ui::text::{trim, trim_end};

#[test]
fn trimming_drops_white_space_at_the_ends_only() {
    assert_eq!(trim("  10 k \t\n"), "10 k");
    assert_eq!(trim("\u{3000}x\u{a0}"), "x");
    assert_eq!(trim(" \t "), "");
    assert_eq!(trim(""), "");
    assert_eq!(trim("a b"), "a b");
}

#[test]
fn trimming_the_end_keeps_the_start() {
    assert_eq!(trim_end("  mm  "), "  mm");
    assert_eq!(trim_end("\u{2003}"), "");
    assert_eq!(trim_end("x"), "x");
}

#[test]
fn trimming_agrees_with_std() {
    for s in ["", " ", "\u{85}a\u{85}", "\u{200b}a", " a b ", "\u{1680}\u{2028}z"] {
        assert_eq!(trim(s), s.trim());
        assert_eq!(trim_end(s), s.trim_end());
    }
}
