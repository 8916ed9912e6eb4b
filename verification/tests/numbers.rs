use kicad_sch_ui::numbers::{parse_u32, parse_unsigned, parse_usize, to_decimal};

#[test]
fn parsing_follows_the_standard_library() {
    for text in ["0", "7", "+7", "007", "4294967295", "", "+", "-1", " 1", "1 ", "1a", "4294967296", "++1"] {
        assert_eq!(parse_u32(text), text.parse::<u32>().ok(), "{text:?}");
        assert_eq!(parse_usize(text), text.parse::<usize>().ok(), "{text:?}");
    }
    assert_eq!(parse_unsigned("255", 255), Some(255));
    assert_eq!(parse_unsigned("256", 255), None);
}

#[test]
fn decimals_render_like_display() {
    for n in [0u64, 1, 9, 10, 99, 100, 12_700, u64::MAX] {
        assert_eq!(to_decimal(n), n.to_string());
    }
}
