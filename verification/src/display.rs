//! The display compositor: writes characters, decimal points and whole
//! strings into a grid at a row cursor, with the punctuation-merging rules of
//! the device.

use vstd::prelude::*;

use crate::font::{convert_font, font};
use crate::grid::Grid;

verus! {

/// The grid after the glyph of `c` is written into row `pos`: columns 0-6
/// hold 255 for a lit segment and 0 for an unlit one, and the decimal point
/// (column 7) of that row is cleared. Every other cell is untouched.
pub open spec fn char_written(g: Seq<Seq<u8>>, pos: int, c: char) -> Seq<Seq<u8>> {
    Seq::new(
        g.len(),
        |x: int|
            Seq::new(
                g[x].len(),
                |y: int|
                    if y == pos && 0 <= x < 7 {
                        if font(c)[x] {
                            255u8
                        } else {
                            0u8
                        }
                    } else if y == pos && x == 7 {
                        0u8
                    } else {
                        g[x][y]
                    },
            ),
    )
}

/// The grid after the decimal point of row `pos` is set (255) or cleared (0).
/// Columns 0-6 are untouched.
pub open spec fn point_written(g: Seq<Seq<u8>>, pos: int, lit: bool) -> Seq<Seq<u8>> {
    Seq::new(
        g.len(),
        |x: int|
            Seq::new(
                g[x].len(),
                |y: int|
                    if y == pos && x == 7 {
                        if lit {
                            255u8
                        } else {
                            0u8
                        }
                    } else {
                        g[x][y]
                    },
            ),
    )
}

/// The point markers: characters that light a decimal point rather than (or
/// in addition to) consuming a row of their own.
pub open spec fn is_marker(c: char) -> bool {
    c == '.' || c == ',' || c == '!'
}

/// String layout, one character at a time. `start` is the row the layout
/// began at, `p` the cursor, `after_marker` whether the previous character
/// was a point marker. A marker consumes a row of its own (a space glyph, or
/// `!`'s own glyph, plus a lit point) when it is the first character
/// processed, follows another marker, or is `!`; otherwise it merges its
/// point onto the previous row. Layout stops, dropping the rest of the
/// string, as soon as a row-consuming character finds the cursor past the
/// last row.
pub open spec fn layout(
    g: Seq<Seq<u8>>,
    start: int,
    p: int,
    after_marker: bool,
    s: Seq<char>,
) -> Seq<Seq<u8>>
    decreases s.len(),
{
    if s.len() == 0 {
        g
    } else {
        let c = s[0];
        if is_marker(c) {
            if p == start || after_marker || c == '!' {
                if p >= 9 {
                    g
                } else {
                    let written = point_written(
                        char_written(
                            g,
                            p,
                            if c == '!' {
                                '!'
                            } else {
                                ' '
                            },
                        ),
                        p,
                        true,
                    );
                    layout(written, start, p + 1, true, s.skip(1))
                }
            } else {
                layout(point_written(g, p - 1, true), start, p, true, s.skip(1))
            }
        } else {
            if p >= 9 {
                g
            } else {
                layout(char_written(g, p, c), start, p + 1, false, s.skip(1))
            }
        }
    }
}

/// The grid after `s` is laid out starting at row `pos`.
pub open spec fn string_displayed(g: Seq<Seq<u8>>, pos: int, s: Seq<char>) -> Seq<Seq<u8>> {
    layout(g, pos, pos, false, s)
}

/// Writes the 7-segment pattern for `c` into row `pos` and clears that row's
/// decimal point. The caller supplies a valid row index.
pub fn display_char(pos: usize, grid: &mut Grid, c: char)
    requires
        pos < 9,
    ensures
        final(grid)@ == char_written(old(grid)@, pos as int, c),
{
    let lookup = convert_font(c);
    let mut seg: usize = 0;
    while seg < 7
        invariant
            seg <= 7,
            pos < 9,
            lookup@ == font(c),
            forall|i: int|
                0 <= i < seg ==> grid.0[i]@ == old(grid).0[i]@.update(
                    pos as int,
                    if font(c)[i] {
                        255u8
                    } else {
                        0u8
                    },
                ),
            forall|i: int| seg <= i < 8 ==> grid.0[i] == old(grid).0[i],
        decreases 7 - seg,
    {
        let val: u8 = if lookup[seg] {
            255
        } else {
            0
        };
        let mut col = grid.0[seg];
        col[pos] = val;
        grid.0[seg] = col;
        seg = seg + 1;
    }
    let mut col = grid.0[7];
    col[pos] = 0;
    grid.0[7] = col;
    proof {
        assert(grid@ =~~= char_written(old(grid)@, pos as int, c));
    }
}

/// Sets or clears the decimal point of row `pos` only; the segment columns
/// are untouched. The caller supplies a valid row index.
pub fn display_point(pos: usize, grid: &mut Grid, point: bool)
    requires
        pos < 9,
    ensures
        final(grid)@ == point_written(old(grid)@, pos as int, point),
{
    let val: u8 = if point {
        255
    } else {
        0
    };
    let mut col = grid.0[7];
    col[pos] = val;
    grid.0[7] = col;
    proof {
        assert(grid@ =~~= point_written(old(grid)@, pos as int, point));
    }
}

/// The character a base-36 digit renders as: '0'-'9', then 'a'-'z'; any
/// out-of-range value falls back to a space.
pub open spec fn base36_char(digit: u8) -> char {
    if digit < 10 {
        (('0' as int) + digit) as char
    } else if digit < 36 {
        (('a' as int) + digit - 10) as char
    } else {
        ' '
    }
}

/// Writes the base-36 character for `digit` (0-35) at row `pos`;
/// out-of-range digits render as a space, never an error. The caller
/// supplies a valid row index.
pub fn display_base36(pos: usize, grid: &mut Grid, digit: u8)
    requires
        pos < 9,
    ensures
        final(grid)@ == char_written(old(grid)@, pos as int, base36_char(digit)),
{
    let c: char = if digit < 10 {
        (48u8 + digit) as char
    } else if digit < 36 {
        (97u8 + (digit - 10)) as char
    } else {
        ' '
    };
    display_char(pos, grid, c);
}

/// Lays a string out starting at row `pos`, one row per visible glyph. A `.`
/// or `,` after an ordinary character merges its decimal point onto the
/// previous row; a marker at the start, after another marker, or the
/// character `!` consumes a row of its own. Characters past the last row are
/// silently dropped.
pub fn display_string(pos: usize, grid: &mut Grid, s: &str)
    ensures
        final(grid)@ == string_displayed(old(grid)@, pos as int, s@),
{
    let n: usize = s.unicode_len();
    let mut p: usize = pos;
    let mut last_was_dot = false;
    let mut i: usize = 0;
    proof {
        assert(s@.skip(0) =~= s@);
    }
    while i < n
        invariant
            n == s@.len(),
            i <= n,
            p >= pos,
            p > pos ==> p <= 9,
            layout(grid@, pos as int, p as int, last_was_dot, s@.skip(i as int)) == layout(
                old(grid)@,
                pos as int,
                pos as int,
                false,
                s@,
            ),
        ensures
            grid@ == layout(old(grid)@, pos as int, pos as int, false, s@),
        decreases n - i,
    {
        let c = s.get_char(i);
        proof {
            assert(s@.skip(i as int)[0] == c);
            assert(s@.skip(i as int).skip(1) =~= s@.skip(i as int + 1));
        }
        if c == '.' || c == ',' || c == '!' {
            if p == pos || last_was_dot || c == '!' {
                if p >= 9 {
                    break ;
                }
                display_char(p, grid, if c == '!' {
                    c
                } else {
                    ' '
                });
                display_point(p, grid, true);
                p = p + 1;
            } else {
                display_point(p - 1, grid, true);
            }
            last_was_dot = true;
        } else {
            if p >= 9 {
                break ;
            }
            display_char(p, grid, c);
            p = p + 1;
            last_was_dot = false;
        }
        i = i + 1;
    }
}

} // verus!
