//! The character-to-segment font: a total function from a character to a
//! 7-element lit/unlit pattern, in the same canonical segment order as the
//! grid's columns 0-6. Lowercase ASCII letters without a glyph of their own
//! fall back to their uppercase glyph; anything else unmapped is blank.

use vstd::prelude::*;

verus! {

/// The all-segments-off pattern.
pub open spec fn blank_glyph() -> Seq<bool> {
    seq![false, false, false, false, false, false, false]
}

/// The verbatim glyph table: the characters that have a pattern of their own.
/// A handful of letter glyphs are approximations; they are kept exactly as
/// rendered by the device, since callers may depend on the existing shapes.
pub open spec fn glyph_table(c: char) -> Option<Seq<bool>> {
    match c {
        '0' => Some(seq![true, true, true, true, true, true, false]),
        '1' => Some(seq![false, true, true, false, false, false, false]),
        '2' => Some(seq![true, true, false, true, true, false, true]),
        '3' => Some(seq![true, true, true, true, false, false, true]),
        '4' => Some(seq![false, true, true, false, false, true, true]),
        '5' => Some(seq![true, false, true, true, false, true, true]),
        '6' => Some(seq![true, false, true, true, true, true, true]),
        '7' => Some(seq![true, true, true, false, false, false, false]),
        '8' => Some(seq![true, true, true, true, true, true, true]),
        '9' => Some(seq![true, true, true, false, false, true, true]),
        'A' => Some(seq![true, true, true, false, true, true, true]),
        'B' => Some(seq![false, false, true, true, true, true, true]),
        'C' => Some(seq![true, false, false, true, true, true, false]),
        'c' => Some(seq![false, false, false, true, true, false, true]),
        'D' => Some(seq![false, true, true, true, true, false, true]),
        'E' => Some(seq![true, false, false, true, true, true, true]),
        'F' => Some(seq![true, false, false, false, true, true, true]),
        'G' => Some(seq![true, false, true, true, true, true, false]),
        'H' => Some(seq![false, true, true, false, true, true, true]),
        'h' => Some(seq![false, false, true, false, true, true, true]),
        'I' => Some(seq![false, false, true, false, false, false, false]),
        'J' => Some(seq![false, true, true, true, true, false, false]),
        'K' => Some(seq![true, false, true, false, true, true, true]),
        'L' => Some(seq![false, false, false, true, true, true, false]),
        'M' => Some(seq![true, true, true, false, true, true, false]),
        'N' => Some(seq![false, false, true, false, true, false, true]),
        'O' => Some(seq![true, true, true, true, true, true, false]),
        'o' => Some(seq![false, false, true, true, true, false, true]),
        'P' => Some(seq![true, true, false, false, true, true, true]),
        'Q' => Some(seq![true, true, true, false, false, true, true]),
        'R' => Some(seq![false, false, false, false, true, false, true]),
        'S' => Some(seq![true, false, true, true, false, true, true]),
        'T' => Some(seq![false, false, false, true, true, true, true]),
        'U' => Some(seq![false, false, true, true, true, false, false]),
        'V' => Some(seq![false, true, true, true, true, true, false]),
        'W' => Some(seq![false, true, true, true, true, true, true]),
        'X' => Some(seq![false, true, true, false, true, true, true]),
        'Y' => Some(seq![false, true, true, true, false, true, true]),
        'Z' => Some(seq![true, true, false, true, true, false, false]),
        ' ' => Some(seq![false, false, false, false, false, false, false]),
        '-' => Some(seq![false, false, false, false, false, false, true]),
        '_' => Some(seq![false, false, false, true, false, false, false]),
        '=' => Some(seq![false, false, false, true, false, false, true]),
        '/' => Some(seq![false, true, false, false, true, false, true]),
        '\\' => Some(seq![false, false, true, false, false, true, true]),
        '?' => Some(seq![true, true, false, false, true, false, true]),
        '!' => Some(seq![false, true, false, false, false, false, false]),
        _ => None,
    }
}

/// Uppercase canonicalization of a lowercase ASCII letter; every other
/// character is its own canonical form.
pub open spec fn to_upper(c: char) -> char {
    match c {
        'a' => 'A',
        'b' => 'B',
        'c' => 'C',
        'd' => 'D',
        'e' => 'E',
        'f' => 'F',
        'g' => 'G',
        'h' => 'H',
        'i' => 'I',
        'j' => 'J',
        'k' => 'K',
        'l' => 'L',
        'm' => 'M',
        'n' => 'N',
        'o' => 'O',
        'p' => 'P',
        'q' => 'Q',
        'r' => 'R',
        's' => 'S',
        't' => 'T',
        'u' => 'U',
        'v' => 'V',
        'w' => 'W',
        'x' => 'X',
        'y' => 'Y',
        'z' => 'Z',
        _ => c,
    }
}

/// The font as a total function: a character's own glyph if it has one, the
/// glyph of its uppercase form otherwise, and the blank pattern when neither
/// is mapped.
pub open spec fn font(c: char) -> Seq<bool> {
    match glyph_table(c) {
        Some(p) => p,
        None => match glyph_table(to_upper(c)) {
            Some(p) => p,
            None => blank_glyph(),
        },
    }
}

/// A character is mapped when it, or its uppercase form, has a glyph.
pub open spec fn is_mapped(c: char) -> bool {
    glyph_table(c) is Some || glyph_table(to_upper(c)) is Some
}

fn glyph_lookup(c: char) -> (r: Option<[bool; 7]>)
    ensures
        r is Some <==> glyph_table(c) is Some,
        r is Some ==> r->Some_0@ == glyph_table(c)->Some_0,
{
    let r: Option<[bool; 7]> = match c {
        '0' => Some([true, true, true, true, true, true, false]),
        '1' => Some([false, true, true, false, false, false, false]),
        '2' => Some([true, true, false, true, true, false, true]),
        '3' => Some([true, true, true, true, false, false, true]),
        '4' => Some([false, true, true, false, false, true, true]),
        '5' => Some([true, false, true, true, false, true, true]),
        '6' => Some([true, false, true, true, true, true, true]),
        '7' => Some([true, true, true, false, false, false, false]),
        '8' => Some([true, true, true, true, true, true, true]),
        '9' => Some([true, true, true, false, false, true, true]),
        'A' => Some([true, true, true, false, true, true, true]),
        'B' => Some([false, false, true, true, true, true, true]),
        'C' => Some([true, false, false, true, true, true, false]),
        'c' => Some([false, false, false, true, true, false, true]),
        'D' => Some([false, true, true, true, true, false, true]),
        'E' => Some([true, false, false, true, true, true, true]),
        'F' => Some([true, false, false, false, true, true, true]),
        'G' => Some([true, false, true, true, true, true, false]),
        'H' => Some([false, true, true, false, true, true, true]),
        'h' => Some([false, false, true, false, true, true, true]),
        'I' => Some([false, false, true, false, false, false, false]),
        'J' => Some([false, true, true, true, true, false, false]),
        'K' => Some([true, false, true, false, true, true, true]),
        'L' => Some([false, false, false, true, true, true, false]),
        'M' => Some([true, true, true, false, true, true, false]),
        'N' => Some([false, false, true, false, true, false, true]),
        'O' => Some([true, true, true, true, true, true, false]),
        'o' => Some([false, false, true, true, true, false, true]),
        'P' => Some([true, true, false, false, true, true, true]),
        'Q' => Some([true, true, true, false, false, true, true]),
        'R' => Some([false, false, false, false, true, false, true]),
        'S' => Some([true, false, true, true, false, true, true]),
        'T' => Some([false, false, false, true, true, true, true]),
        'U' => Some([false, false, true, true, true, false, false]),
        'V' => Some([false, true, true, true, true, true, false]),
        'W' => Some([false, true, true, true, true, true, true]),
        'X' => Some([false, true, true, false, true, true, true]),
        'Y' => Some([false, true, true, true, false, true, true]),
        'Z' => Some([true, true, false, true, true, false, false]),
        ' ' => Some([false, false, false, false, false, false, false]),
        '-' => Some([false, false, false, false, false, false, true]),
        '_' => Some([false, false, false, true, false, false, false]),
        '=' => Some([false, false, false, true, false, false, true]),
        '/' => Some([false, true, false, false, true, false, true]),
        '\\' => Some([false, false, true, false, false, true, true]),
        '?' => Some([true, true, false, false, true, false, true]),
        '!' => Some([false, true, false, false, false, false, false]),
        _ => None,
    };
    proof {
        if r is Some {
            assert(r->Some_0@ =~= glyph_table(c)->Some_0);
        }
    }
    r
}

fn upper_ascii(c: char) -> (r: char)
    ensures
        r == to_upper(c),
{
    match c {
        'a' => 'A',
        'b' => 'B',
        'c' => 'C',
        'd' => 'D',
        'e' => 'E',
        'f' => 'F',
        'g' => 'G',
        'h' => 'H',
        'i' => 'I',
        'j' => 'J',
        'k' => 'K',
        'l' => 'L',
        'm' => 'M',
        'n' => 'N',
        'o' => 'O',
        'p' => 'P',
        'q' => 'Q',
        'r' => 'R',
        's' => 'S',
        't' => 'T',
        'u' => 'U',
        'v' => 'V',
        'w' => 'W',
        'x' => 'X',
        'y' => 'Y',
        'z' => 'Z',
        _ => c,
    }
}

/// The 7-segment pattern for `c`: total, pure, never fails. Unmapped input
/// renders as the blank pattern.
pub fn convert_font(c: char) -> (r: [bool; 7])
    ensures
        r@ == font(c),
{
    match glyph_lookup(c) {
        Some(p) => p,
        None => {
            let u = upper_ascii(c);
            match glyph_lookup(u) {
                Some(p) => p,
                None => {
                    let b: [bool; 7] = [false; 7];
                    proof {
                        assert(b@ =~= blank_glyph());
                    }
                    b
                },
            }
        },
    }
}

/// How many segments a pattern lights.
pub open spec fn lit_segments(p: Seq<bool>) -> int
    decreases p.len(),
{
    if p.len() == 0 {
        0
    } else {
        lit_segments(p.drop_last()) + if p.last() {
            1int
        } else {
            0int
        }
    }
}

proof fn lemma_lit_segments_le_len(p: Seq<bool>)
    ensures
        0 <= lit_segments(p) <= p.len(),
    decreases p.len(),
{
    if p.len() > 0 {
        lemma_lit_segments_le_len(p.drop_last());
    }
}

/// Every glyph the font returns has exactly 7 segments.
pub proof fn lemma_font_len(c: char)
    ensures
        font(c).len() == 7,
{
}

/// A digit's glyph lights at most 7 segments, and the font is a pure
/// function: repeated application to the same character gives the same
/// pattern.
pub proof fn lemma_digit_glyph_bounded(c: char)
    requires
        '0' <= c <= '9',
    ensures
        font(c).len() == 7,
        lit_segments(font(c)) <= 7,
{
    lemma_lit_segments_le_len(font(c));
}

/// The font is case-insensitive for every letter whose lowercase form has no
/// verbatim glyph of its own: such a letter renders as its uppercase form.
pub proof fn lemma_font_case_insensitive(c: char)
    requires
        'a' <= c <= 'z',
        c != 'c',
        c != 'h',
        c != 'o',
    ensures
        font(c) == font(to_upper(c)),
{
}

/// Any character outside the mapped set renders exactly as a space: the
/// blank pattern.
pub proof fn lemma_unmapped_is_blank(c: char)
    requires
        !is_mapped(c),
    ensures
        font(c) == font(' '),
{
    assert(font(' ') =~= blank_glyph());
}

} // verus!
