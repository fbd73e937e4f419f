//! The fixed-size brightness buffer for the display: 8 columns (the seven
//! segments of a digit cell plus its decimal point) by 9 rows (digit cells).

use vstd::prelude::*;

verus! {

/// Number of columns: segments 0-6 plus the decimal point at column 7.
pub const WIDTH: usize = 8;

/// Number of rows: the nine digit-cell positions, left to right.
pub const HEIGHT: usize = 9;

/// Total number of addressable LEDs.
pub const LEDS: usize = 72;

/// An 8-wide by 9-tall matrix of 8-bit brightness values. `0[x][y]` is the
/// brightness of segment `x` (or the decimal point, for `x == 7`) of digit
/// cell `y`. Dimensions are fixed by the type and never change.
#[derive(Clone, Copy)]
pub struct Grid(pub [[u8; 9]; 8]);

impl View for Grid {
    type V = Seq<Seq<u8>>;

    open spec fn view(&self) -> Seq<Seq<u8>> {
        Seq::new(8, |x: int| self.0[x]@)
    }
}

/// One column circularly rotated down by `n` positions: the value that was at
/// row `y` moves to row `(y + n) % 9`.
pub open spec fn rotated_col(col: Seq<u8>, n: nat) -> Seq<u8> {
    Seq::new(9, |y: int| col[(y + 9 - (n % 9)) % 9])
}

/// The whole grid with every column rotated down by `n` positions.
pub open spec fn rotated(g: Seq<Seq<u8>>, n: nat) -> Seq<Seq<u8>> {
    Seq::new(8, |x: int| rotated_col(g[x], n))
}

impl Grid {
    /// The all-dark grid.
    pub open spec fn blank_spec() -> Seq<Seq<u8>> {
        Seq::new(8, |x: int| Seq::new(9, |y: int| 0u8))
    }
}

impl Default for Grid {
    /// All LEDs off.
    fn default() -> (g: Grid)
        ensures
            g@ == Grid::blank_spec(),
    {
        let g = Grid([[0u8; 9]; 8]);
        proof {
            assert(g@ =~~= Grid::blank_spec());
        }
        g
    }
}

impl Grid {
    /// Independently rotates each column down by `rotations` positions,
    /// wrapping circularly within the 9-row column. Any `usize` is valid;
    /// the count is reduced modulo the column length.
    pub fn rotate(&mut self, rotations: usize)
        ensures
            final(self)@ == rotated(old(self)@, rotations as nat),
    {
        let r: usize = rotations % 9;
        let mut x: usize = 0;
        while x < 8
            invariant
                r == rotations % 9,
                x <= 8,
                forall|i: int| 0 <= i < x ==> self.0[i]@ == rotated_col(old(self)@[i], rotations as nat),
                forall|i: int| x <= i < 8 ==> self.0[i] == old(self).0[i],
            decreases 8 - x,
        {
            let src = self.0[x];
            let mut col: [u8; 9] = [0u8; 9];
            let mut y: usize = 0;
            while y < 9
                invariant
                    r < 9,
                    y <= 9,
                    forall|j: int| 0 <= j < y ==> col@[j] == src@[(j + 9 - r) % 9],
                decreases 9 - y,
            {
                col[y] = src[(y + 9 - r) % 9];
                y = y + 1;
            }
            proof {
                assert(col@ =~= rotated_col(src@, rotations as nat));
            }
            self.0[x] = col;
            x = x + 1;
        }
        proof {
            assert(self@ =~~= rotated(old(self)@, rotations as nat));
        }
    }
}

/// Rotating by `n` and then by `9 - n` restores the original grid,
/// for every rotation count below the column height.
pub proof fn lemma_rotate_round_trip(g: Grid, n: nat)
    requires
        n < 9,
    ensures
        rotated(rotated(g@, n), (9 - n) as nat) == g@,
{
    let m: nat = (9 - n) as nat;
    assert forall|x: int, y: int| 0 <= x < 8 && 0 <= y < 9 implies rotated(
        rotated(g@, n),
        m,
    )[x][y] == g@[x][y] by {
        let y1 = (y + 9 - (m % 9)) % 9;
        assert(0 <= y1 < 9);
        assert(rotated(rotated(g@, n), m)[x][y] == rotated(g@, n)[x][y1]);
        assert(rotated(g@, n)[x][y1] == g@[x][(y1 + 9 - (n % 9)) % 9]);
        assert((y1 + 9 - (n % 9)) % 9 == y);
    }
    assert(rotated(rotated(g@, n), m) =~~= g@);
}

/// Rotating by the full column height (or any multiple of it) is the identity.
pub proof fn lemma_rotate_full_identity(g: Grid, n: nat)
    requires
        n % 9 == 0,
    ensures
        rotated(g@, n) == g@,
{
    assert forall|x: int, y: int| 0 <= x < 8 && 0 <= y < 9 implies rotated(g@, n)[x][y]
        == g@[x][y] by {
        assert((y + 9 - (n % 9)) % 9 == y);
    }
    assert(rotated(g@, n) =~~= g@);
}

} // verus!
