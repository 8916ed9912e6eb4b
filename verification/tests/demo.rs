use kicad_sch_ui::demo::glyph;

#[test]
fn every_letter_and_digit_has_a_glyph() {
    for ch in ('A'..='Z').chain('0'..='9') {
        assert!(!glyph(ch).is_empty(), "{ch} has no strokes");
    }
    assert!(glyph(' ').is_empty(), "a space draws nothing");
}

// ---------------------------------------------------------------------------
// Further cases

#[test]
fn lower_case_letters_draw_as_capitals() {
    for (lower, upper) in ('a'..='z').zip('A'..='Z') {
        assert_eq!(glyph(lower), glyph(upper));
    }
}

#[test]
fn strokes_stay_on_the_four_by_six_grid() {
    for ch in ('A'..='Z').chain('0'..='9').chain("-./:".chars()) {
        for stroke in glyph(ch) {
            assert!(stroke.len() >= 2, "{ch} has a stroke with one point");
            for &(x, y) in stroke.iter() {
                assert!(x <= 4 && y <= 6, "{ch} leaves the grid");
            }
        }
    }
}

#[test]
fn the_letter_a_is_an_arch_with_a_bar() {
    let a = glyph('A');
    assert_eq!(a.len(), 2);
    assert_eq!(a[0], &[(0, 6), (0, 2), (2, 0), (4, 2), (4, 6)][..]);
    assert_eq!(a[1], &[(0, 4), (4, 4)][..]);
    assert!(glyph('#').is_empty());
    assert!(glyph('é').is_empty());
}
