//! The stroke font the demonstration draw stream writes its labels in.
//!
//! The draw stream has no text command: KiCad lowers text to polylines on the
//! C++ side. This 4x6 stroke font is the stand-in for that, uppercase only,
//! not a second font system.

use vstd::prelude::*;

verus! {

/// The uppercase of an ASCII lowercase letter; any other character itself.
pub open spec fn ascii_upper(c: char) -> char {
    if c == 'a' {
        'A'
    } else if c == 'b' {
        'B'
    } else if c == 'c' {
        'C'
    } else if c == 'd' {
        'D'
    } else if c == 'e' {
        'E'
    } else if c == 'f' {
        'F'
    } else if c == 'g' {
        'G'
    } else if c == 'h' {
        'H'
    } else if c == 'i' {
        'I'
    } else if c == 'j' {
        'J'
    } else if c == 'k' {
        'K'
    } else if c == 'l' {
        'L'
    } else if c == 'm' {
        'M'
    } else if c == 'n' {
        'N'
    } else if c == 'o' {
        'O'
    } else if c == 'p' {
        'P'
    } else if c == 'q' {
        'Q'
    } else if c == 'r' {
        'R'
    } else if c == 's' {
        'S'
    } else if c == 't' {
        'T'
    } else if c == 'u' {
        'U'
    } else if c == 'v' {
        'V'
    } else if c == 'w' {
        'W'
    } else if c == 'x' {
        'X'
    } else if c == 'y' {
        'Y'
    } else if c == 'z' {
        'Z'
    } else {
        c
    }
}

/// The strokes of `c` in the 4x6 stroke font: polylines on a grid whose
/// origin is the character's top left and whose y grows downwards. Characters
/// the font does not have draw nothing.
pub open spec fn font_strokes(c: char) -> Seq<Seq<(u8, u8)>> {
    if c == 'A' {
        seq![seq![(0u8, 6u8), (0u8, 2u8), (2u8, 0u8), (4u8, 2u8), (4u8, 6u8)], seq![(0u8, 4u8), (4u8, 4u8)]]
    } else if c == 'B' {
        seq![seq![(0u8, 0u8), (0u8, 6u8)], seq![(0u8, 0u8), (3u8, 0u8), (4u8, 1u8), (4u8, 2u8), (3u8, 3u8), (0u8, 3u8)], seq![(0u8, 3u8), (3u8, 3u8), (4u8, 4u8), (4u8, 5u8), (3u8, 6u8), (0u8, 6u8)]]
    } else if c == 'C' {
        seq![seq![(4u8, 1u8), (3u8, 0u8), (1u8, 0u8), (0u8, 1u8), (0u8, 5u8), (1u8, 6u8), (3u8, 6u8), (4u8, 5u8)]]
    } else if c == 'D' {
        seq![seq![(0u8, 0u8), (0u8, 6u8)], seq![(0u8, 0u8), (3u8, 0u8), (4u8, 1u8), (4u8, 5u8), (3u8, 6u8), (0u8, 6u8)]]
    } else if c == 'E' {
        seq![seq![(4u8, 0u8), (0u8, 0u8), (0u8, 6u8), (4u8, 6u8)], seq![(0u8, 3u8), (3u8, 3u8)]]
    } else if c == 'F' {
        seq![seq![(4u8, 0u8), (0u8, 0u8), (0u8, 6u8)], seq![(0u8, 3u8), (3u8, 3u8)]]
    } else if c == 'G' {
        seq![seq![(4u8, 1u8), (3u8, 0u8), (1u8, 0u8), (0u8, 1u8), (0u8, 5u8), (1u8, 6u8), (3u8, 6u8), (4u8, 5u8), (4u8, 3u8), (2u8, 3u8)]]
    } else if c == 'H' {
        seq![seq![(0u8, 0u8), (0u8, 6u8)], seq![(4u8, 0u8), (4u8, 6u8)], seq![(0u8, 3u8), (4u8, 3u8)]]
    } else if c == 'I' {
        seq![seq![(1u8, 0u8), (3u8, 0u8)], seq![(2u8, 0u8), (2u8, 6u8)], seq![(1u8, 6u8), (3u8, 6u8)]]
    } else if c == 'J' {
        seq![seq![(4u8, 0u8), (4u8, 5u8), (3u8, 6u8), (1u8, 6u8), (0u8, 5u8)]]
    } else if c == 'K' {
        seq![seq![(0u8, 0u8), (0u8, 6u8)], seq![(4u8, 0u8), (0u8, 3u8), (4u8, 6u8)]]
    } else if c == 'L' {
        seq![seq![(0u8, 0u8), (0u8, 6u8), (4u8, 6u8)]]
    } else if c == 'M' {
        seq![seq![(0u8, 6u8), (0u8, 0u8), (2u8, 3u8), (4u8, 0u8), (4u8, 6u8)]]
    } else if c == 'N' {
        seq![seq![(0u8, 6u8), (0u8, 0u8), (4u8, 6u8), (4u8, 0u8)]]
    } else if c == 'O' {
        seq![seq![(1u8, 0u8), (3u8, 0u8), (4u8, 1u8), (4u8, 5u8), (3u8, 6u8), (1u8, 6u8), (0u8, 5u8), (0u8, 1u8), (1u8, 0u8)]]
    } else if c == 'P' {
        seq![seq![(0u8, 6u8), (0u8, 0u8), (3u8, 0u8), (4u8, 1u8), (4u8, 2u8), (3u8, 3u8), (0u8, 3u8)]]
    } else if c == 'Q' {
        seq![seq![(1u8, 0u8), (3u8, 0u8), (4u8, 1u8), (4u8, 5u8), (3u8, 6u8), (1u8, 6u8), (0u8, 5u8), (0u8, 1u8), (1u8, 0u8)], seq![(2u8, 4u8), (4u8, 6u8)]]
    } else if c == 'R' {
        seq![seq![(0u8, 6u8), (0u8, 0u8), (3u8, 0u8), (4u8, 1u8), (4u8, 2u8), (3u8, 3u8), (0u8, 3u8)], seq![(2u8, 3u8), (4u8, 6u8)]]
    } else if c == 'S' {
        seq![seq![(4u8, 1u8), (3u8, 0u8), (1u8, 0u8), (0u8, 1u8), (0u8, 2u8), (1u8, 3u8), (3u8, 3u8), (4u8, 4u8), (4u8, 5u8), (3u8, 6u8), (1u8, 6u8), (0u8, 5u8)]]
    } else if c == 'T' {
        seq![seq![(0u8, 0u8), (4u8, 0u8)], seq![(2u8, 0u8), (2u8, 6u8)]]
    } else if c == 'U' {
        seq![seq![(0u8, 0u8), (0u8, 5u8), (1u8, 6u8), (3u8, 6u8), (4u8, 5u8), (4u8, 0u8)]]
    } else if c == 'V' {
        seq![seq![(0u8, 0u8), (2u8, 6u8), (4u8, 0u8)]]
    } else if c == 'W' {
        seq![seq![(0u8, 0u8), (1u8, 6u8), (2u8, 3u8), (3u8, 6u8), (4u8, 0u8)]]
    } else if c == 'X' {
        seq![seq![(0u8, 0u8), (4u8, 6u8)], seq![(4u8, 0u8), (0u8, 6u8)]]
    } else if c == 'Y' {
        seq![seq![(0u8, 0u8), (2u8, 3u8), (4u8, 0u8)], seq![(2u8, 3u8), (2u8, 6u8)]]
    } else if c == 'Z' {
        seq![seq![(0u8, 0u8), (4u8, 0u8), (0u8, 6u8), (4u8, 6u8)]]
    } else if c == '0' {
        seq![seq![(1u8, 0u8), (3u8, 0u8), (4u8, 1u8), (4u8, 5u8), (3u8, 6u8), (1u8, 6u8), (0u8, 5u8), (0u8, 1u8), (1u8, 0u8)], seq![(0u8, 5u8), (4u8, 1u8)]]
    } else if c == '1' {
        seq![seq![(1u8, 1u8), (2u8, 0u8), (2u8, 6u8)], seq![(1u8, 6u8), (3u8, 6u8)]]
    } else if c == '2' {
        seq![seq![(0u8, 1u8), (1u8, 0u8), (3u8, 0u8), (4u8, 1u8), (4u8, 2u8), (0u8, 6u8), (4u8, 6u8)]]
    } else if c == '3' {
        seq![seq![(0u8, 0u8), (4u8, 0u8), (2u8, 3u8), (4u8, 4u8), (4u8, 5u8), (3u8, 6u8), (1u8, 6u8), (0u8, 5u8)]]
    } else if c == '4' {
        seq![seq![(3u8, 6u8), (3u8, 0u8), (0u8, 4u8), (4u8, 4u8)]]
    } else if c == '5' {
        seq![seq![(4u8, 0u8), (0u8, 0u8), (0u8, 3u8), (3u8, 3u8), (4u8, 4u8), (4u8, 5u8), (3u8, 6u8), (1u8, 6u8), (0u8, 5u8)]]
    } else if c == '6' {
        seq![seq![(4u8, 0u8), (1u8, 0u8), (0u8, 1u8), (0u8, 5u8), (1u8, 6u8), (3u8, 6u8), (4u8, 5u8), (4u8, 4u8), (3u8, 3u8), (0u8, 3u8)]]
    } else if c == '7' {
        seq![seq![(0u8, 0u8), (4u8, 0u8), (1u8, 6u8)]]
    } else if c == '8' {
        seq![seq![(1u8, 3u8), (0u8, 2u8), (0u8, 1u8), (1u8, 0u8), (3u8, 0u8), (4u8, 1u8), (4u8, 2u8), (3u8, 3u8), (1u8, 3u8)], seq![(1u8, 3u8), (0u8, 4u8), (0u8, 5u8), (1u8, 6u8), (3u8, 6u8), (4u8, 5u8), (4u8, 4u8), (3u8, 3u8)]]
    } else if c == '9' {
        seq![seq![(0u8, 6u8), (3u8, 6u8), (4u8, 5u8), (4u8, 1u8), (3u8, 0u8), (1u8, 0u8), (0u8, 1u8), (0u8, 2u8), (1u8, 3u8), (4u8, 3u8)]]
    } else if c == '+' {
        seq![seq![(2u8, 1u8), (2u8, 5u8)], seq![(0u8, 3u8), (4u8, 3u8)]]
    } else if c == '-' {
        seq![seq![(0u8, 3u8), (4u8, 3u8)]]
    } else if c == '/' {
        seq![seq![(4u8, 0u8), (0u8, 6u8)]]
    } else if c == '[' {
        seq![seq![(3u8, 0u8), (1u8, 0u8), (1u8, 6u8), (3u8, 6u8)]]
    } else if c == ']' {
        seq![seq![(1u8, 0u8), (3u8, 0u8), (3u8, 6u8), (1u8, 6u8)]]
    } else if c == '.' {
        seq![seq![(2u8, 5u8), (2u8, 6u8)]]
    } else if c == ':' {
        seq![seq![(2u8, 1u8), (2u8, 2u8)], seq![(2u8, 4u8), (2u8, 5u8)]]
    } else if c == '_' {
        seq![seq![(0u8, 6u8), (4u8, 6u8)]]
    } else {
        Seq::empty()
    }
}

/// The strokes a glyph slice holds.
pub open spec fn strokes_of(glyph: &'static [&'static [(u8, u8)]]) -> Seq<Seq<(u8, u8)>> {
    glyph@.map_values(|stroke: &'static [(u8, u8)]| stroke@)
}

/// The glyph for `ch`, case-insensitively: a list of polylines in the 4x6
/// stroke font, empty for characters the font does not have.
#[verifier::rlimit(100)]
pub fn glyph(ch: char) -> (strokes: &'static [&'static [(u8, u8)]])
    ensures
        strokes_of(strokes) == font_strokes(ascii_upper(ch)),
{
    let strokes: &'static [&'static [(u8, u8)]] = match ch {
        'A' | 'a' => &[&[(0, 6), (0, 2), (2, 0), (4, 2), (4, 6)], &[(0, 4), (4, 4)]],
        'B' | 'b' => &[&[(0, 0), (0, 6)], &[(0, 0), (3, 0), (4, 1), (4, 2), (3, 3), (0, 3)], &[(0, 3), (3, 3), (4, 4), (4, 5), (3, 6), (0, 6)]],
        'C' | 'c' => &[&[(4, 1), (3, 0), (1, 0), (0, 1), (0, 5), (1, 6), (3, 6), (4, 5)]],
        'D' | 'd' => &[&[(0, 0), (0, 6)], &[(0, 0), (3, 0), (4, 1), (4, 5), (3, 6), (0, 6)]],
        'E' | 'e' => &[&[(4, 0), (0, 0), (0, 6), (4, 6)], &[(0, 3), (3, 3)]],
        'F' | 'f' => &[&[(4, 0), (0, 0), (0, 6)], &[(0, 3), (3, 3)]],
        'G' | 'g' => &[&[(4, 1), (3, 0), (1, 0), (0, 1), (0, 5), (1, 6), (3, 6), (4, 5), (4, 3), (2, 3)]],
        'H' | 'h' => &[&[(0, 0), (0, 6)], &[(4, 0), (4, 6)], &[(0, 3), (4, 3)]],
        'I' | 'i' => &[&[(1, 0), (3, 0)], &[(2, 0), (2, 6)], &[(1, 6), (3, 6)]],
        'J' | 'j' => &[&[(4, 0), (4, 5), (3, 6), (1, 6), (0, 5)]],
        'K' | 'k' => &[&[(0, 0), (0, 6)], &[(4, 0), (0, 3), (4, 6)]],
        'L' | 'l' => &[&[(0, 0), (0, 6), (4, 6)]],
        'M' | 'm' => &[&[(0, 6), (0, 0), (2, 3), (4, 0), (4, 6)]],
        'N' | 'n' => &[&[(0, 6), (0, 0), (4, 6), (4, 0)]],
        'O' | 'o' => &[&[(1, 0), (3, 0), (4, 1), (4, 5), (3, 6), (1, 6), (0, 5), (0, 1), (1, 0)]],
        'P' | 'p' => &[&[(0, 6), (0, 0), (3, 0), (4, 1), (4, 2), (3, 3), (0, 3)]],
        'Q' | 'q' => &[&[(1, 0), (3, 0), (4, 1), (4, 5), (3, 6), (1, 6), (0, 5), (0, 1), (1, 0)], &[(2, 4), (4, 6)]],
        'R' | 'r' => &[&[(0, 6), (0, 0), (3, 0), (4, 1), (4, 2), (3, 3), (0, 3)], &[(2, 3), (4, 6)]],
        'S' | 's' => &[&[(4, 1), (3, 0), (1, 0), (0, 1), (0, 2), (1, 3), (3, 3), (4, 4), (4, 5), (3, 6), (1, 6), (0, 5)]],
        'T' | 't' => &[&[(0, 0), (4, 0)], &[(2, 0), (2, 6)]],
        'U' | 'u' => &[&[(0, 0), (0, 5), (1, 6), (3, 6), (4, 5), (4, 0)]],
        'V' | 'v' => &[&[(0, 0), (2, 6), (4, 0)]],
        'W' | 'w' => &[&[(0, 0), (1, 6), (2, 3), (3, 6), (4, 0)]],
        'X' | 'x' => &[&[(0, 0), (4, 6)], &[(4, 0), (0, 6)]],
        'Y' | 'y' => &[&[(0, 0), (2, 3), (4, 0)], &[(2, 3), (2, 6)]],
        'Z' | 'z' => &[&[(0, 0), (4, 0), (0, 6), (4, 6)]],
        '0' => &[&[(1, 0), (3, 0), (4, 1), (4, 5), (3, 6), (1, 6), (0, 5), (0, 1), (1, 0)], &[(0, 5), (4, 1)]],
        '1' => &[&[(1, 1), (2, 0), (2, 6)], &[(1, 6), (3, 6)]],
        '2' => &[&[(0, 1), (1, 0), (3, 0), (4, 1), (4, 2), (0, 6), (4, 6)]],
        '3' => &[&[(0, 0), (4, 0), (2, 3), (4, 4), (4, 5), (3, 6), (1, 6), (0, 5)]],
        '4' => &[&[(3, 6), (3, 0), (0, 4), (4, 4)]],
        '5' => &[&[(4, 0), (0, 0), (0, 3), (3, 3), (4, 4), (4, 5), (3, 6), (1, 6), (0, 5)]],
        '6' => &[&[(4, 0), (1, 0), (0, 1), (0, 5), (1, 6), (3, 6), (4, 5), (4, 4), (3, 3), (0, 3)]],
        '7' => &[&[(0, 0), (4, 0), (1, 6)]],
        '8' => &[&[(1, 3), (0, 2), (0, 1), (1, 0), (3, 0), (4, 1), (4, 2), (3, 3), (1, 3)], &[(1, 3), (0, 4), (0, 5), (1, 6), (3, 6), (4, 5), (4, 4), (3, 3)]],
        '9' => &[&[(0, 6), (3, 6), (4, 5), (4, 1), (3, 0), (1, 0), (0, 1), (0, 2), (1, 3), (4, 3)]],
        '+' => &[&[(2, 1), (2, 5)], &[(0, 3), (4, 3)]],
        '-' => &[&[(0, 3), (4, 3)]],
        '/' => &[&[(4, 0), (0, 6)]],
        '[' => &[&[(3, 0), (1, 0), (1, 6), (3, 6)]],
        ']' => &[&[(1, 0), (3, 0), (3, 6), (1, 6)]],
        '.' => &[&[(2, 5), (2, 6)]],
        ':' => &[&[(2, 1), (2, 2)], &[(2, 4), (2, 5)]],
        '_' => &[&[(0, 6), (4, 6)]],
        _ => &[],
    };
    assert(strokes_of(strokes) =~= font_strokes(ascii_upper(ch)));
    strokes
}

/// Every letter and digit has a glyph, in either case; a space draws nothing.
pub proof fn lemma_letters_and_digits_have_glyphs(c: char)
    ensures
        ('A' <= c <= 'Z' || 'a' <= c <= 'z' || '0' <= c <= '9') ==> font_strokes(ascii_upper(c)).len() > 0,
        font_strokes(ascii_upper(' ')).len() == 0,
{
}

/// Every point of every stroke lies on the 4x6 grid, and every stroke has at
/// least two points, so it draws a line.
pub proof fn lemma_strokes_on_grid(c: char)
    ensures
        forall|i: int, j: int|
            0 <= i < font_strokes(c).len() && 0 <= j < font_strokes(c)[i].len() ==> (
            #[trigger] font_strokes(c)[i][j]).0 <= 4 && font_strokes(c)[i][j].1 <= 6,
        forall|i: int| 0 <= i < font_strokes(c).len() ==> (#[trigger] font_strokes(c)[i]).len() >= 2,
{
}

} // verus!
