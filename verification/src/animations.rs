//! The animation engine: a closed set of frame generators, each producing a
//! finite sequence of grids one frame at a time. Once exhausted, a generator
//! keeps signaling completion; it never restarts in place.

use vstd::prelude::*;

use crate::grid::Grid;

verus! {

/// Frame `k` of the progressive boot fill: the first `k` cells in row-major
/// scan order (cell index `8 * y + x`) at full brightness, all others off.
pub open spec fn percentage_frame(k: int) -> Seq<Seq<u8>> {
    Seq::new(
        8,
        |x: int|
            Seq::new(
                9,
                |y: int|
                    if 8 * y + x < k {
                        255u8
                    } else {
                        0u8
                    },
            ),
    )
}

/// A grid with every cell at the same brightness.
pub open spec fn uniform_frame(v: u8) -> Seq<Seq<u8>> {
    Seq::new(8, |x: int| Seq::new(9, |y: int| v))
}

/// One frame of the spinner: the segment column selected by the frame index
/// is lit on every row, at a brightness scaled from the progress value
/// (0-6); every other cell is dark.
pub open spec fn spin_frame_spec(frame: int, progress: int) -> Seq<Seq<u8>> {
    Seq::new(
        8,
        |x: int|
            Seq::new(
                9,
                |y: int|
                    if x == frame % 6 {
                        (42 * progress) as u8
                    } else {
                        0u8
                    },
            ),
    )
}

/// The brightness of cell `(x, y)` at wave frame `k`: three times the cell's
/// phase `(x + 8 * y + k) % 72`, floored to dark rather than saturated if the
/// product were ever to exceed the 8-bit range.
pub open spec fn wave_cell(x: int, y: int, k: int) -> u8 {
    let b = 3 * ((x + 8 * y + k) % 72);
    if b > 255 {
        0u8
    } else {
        b as u8
    }
}

/// Frame `k` of the travelling wave.
pub open spec fn wave_frame(k: int) -> Seq<Seq<u8>> {
    Seq::new(8, |x: int| Seq::new(9, |y: int| wave_cell(x, y, k)))
}

/// The progressive fill shown at startup: one frame per cell of the grid.
#[derive(Clone, Copy)]
pub struct StartupPercentageIterator {
    pub frames: usize,
    pub current_frame: usize,
}

impl Default for StartupPercentageIterator {
    /// One frame for each of the 72 cells, none consumed yet.
    fn default() -> (r: Self)
        ensures
            r.frames == 72,
            r.current_frame == 0,
    {
        Self { frames: 72, current_frame: 0 }
    }
}

/// What one `next` call on the progressive fill does: while frames remain it
/// consumes one and returns the fill for the new frame count; once exhausted
/// it keeps returning completion unchanged.
pub open spec fn percentage_next_rel(
    pre: StartupPercentageIterator,
    post: StartupPercentageIterator,
    r: Option<Grid>,
) -> bool {
    &&& post.frames == pre.frames
    &&& if pre.current_frame < pre.frames {
        &&& post.current_frame == pre.current_frame + 1
        &&& r is Some
        &&& r->Some_0@ == percentage_frame(pre.current_frame + 1)
    } else {
        &&& post == pre
        &&& r is None
    }
}

impl StartupPercentageIterator {
    /// The next fill frame, or completion once all frames are consumed.
    pub fn next(&mut self) -> (r: Option<Grid>)
        ensures
            percentage_next_rel(*old(self), *final(self), r),
    {
        if self.current_frame < self.frames {
            self.current_frame = self.current_frame + 1;
            let k = self.current_frame;
            let mut cells: [[u8; 9]; 8] = [[0u8; 9]; 8];
            let mut x: usize = 0;
            while x < 8
                invariant
                    x <= 8,
                    forall|i: int| 0 <= i < x ==> cells[i]@ == percentage_frame(k as int)[i],
                decreases 8 - x,
            {
                let mut col: [u8; 9] = [0u8; 9];
                let mut y: usize = 0;
                while y < 9
                    invariant
                        x < 8,
                        y <= 9,
                        forall|j: int|
                            0 <= j < y ==> col@[j] == percentage_frame(k as int)[x as int][j],
                    decreases 9 - y,
                {
                    col[y] = if 8 * y + x < k {
                        255
                    } else {
                        0
                    };
                    y = y + 1;
                }
                proof {
                    assert(col@ =~= percentage_frame(k as int)[x as int]);
                }
                cells[x] = col;
                x = x + 1;
            }
            let g = Grid(cells);
            proof {
                assert(g@ =~~= percentage_frame(k as int));
            }
            Some(g)
        } else {
            None
        }
    }
}

/// The monotonic brightness ramp: a uniform brightness stepped by 4 each
/// frame and wrapped modulo 255. (The name suggests an up-and-down
/// oscillation; the device ramps and wraps, and that behaviour is kept.)
#[derive(Clone, Copy)]
pub struct BreathingIterator {
    pub frames_remaining: usize,
    pub current_brightness: u8,
}

impl BreathingIterator {
    /// A ramp of `frames` frames starting dark.
    pub fn new(frames: usize) -> (r: Self)
        ensures
            r.frames_remaining == frames,
            r.current_brightness == 0,
    {
        Self { frames_remaining: frames, current_brightness: 0 }
    }
}

impl Default for BreathingIterator {
    /// The default ramp length of 64 frames.
    fn default() -> (r: Self)
        ensures
            r.frames_remaining == 64,
            r.current_brightness == 0,
    {
        BreathingIterator::new(64)
    }
}

/// What one `next` call on the ramp does: while frames remain, the
/// brightness steps by 4 modulo 255 and a uniform grid at the new brightness
/// comes back; once exhausted it keeps returning completion unchanged.
pub open spec fn breathing_next_rel(
    pre: BreathingIterator,
    post: BreathingIterator,
    r: Option<Grid>,
) -> bool {
    if pre.frames_remaining > 0 {
        &&& post.frames_remaining == pre.frames_remaining - 1
        &&& post.current_brightness == (pre.current_brightness + 4) % 255
        &&& r is Some
        &&& r->Some_0@ == uniform_frame(post.current_brightness)
    } else {
        &&& post == pre
        &&& r is None
    }
}

impl BreathingIterator {
    /// The next ramp frame, or completion once all frames are consumed.
    pub fn next(&mut self) -> (r: Option<Grid>)
        ensures
            breathing_next_rel(*old(self), *final(self), r),
    {
        if self.frames_remaining > 0 {
            let b: u8 = (((self.current_brightness as u16) + 4) % 255) as u8;
            self.current_brightness = b;
            self.frames_remaining = self.frames_remaining - 1;
            let g = Grid([[b; 9]; 8]);
            proof {
                assert(g@ =~~= uniform_frame(b));
            }
            Some(g)
        } else {
            None
        }
    }
}

/// Renders one frame of the spinner: segment column `frame % 6` lit on every
/// row at brightness `42 * progress`, everything else dark.
pub fn spin_frame(frame: usize, progress: usize) -> (g: Grid)
    requires
        progress <= 6,
    ensures
        g@ == spin_frame_spec(frame as int, progress as int),
{
    let seg: usize = frame % 6;
    let val: u8 = (42 * progress) as u8;
    let mut cells: [[u8; 9]; 8] = [[0u8; 9]; 8];
    cells[seg] = [val; 9];
    let g = Grid(cells);
    proof {
        assert(g@ =~~= spin_frame_spec(frame as int, progress as int));
    }
    g
}

/// The rotating spinner effect.
#[derive(Clone, Copy)]
pub struct SpinIterator {
    pub frames: usize,
    pub current_frame: usize,
}

impl Default for SpinIterator {
    /// A 128-frame spin, none consumed yet.
    fn default() -> (r: Self)
        ensures
            r.frames == 128,
            r.current_frame == 0,
    {
        Self { frames: 128, current_frame: 0 }
    }
}

/// What one `next` call on the spinner does: while frames remain it consumes
/// one and returns the spinner frame for the new index, with the progress
/// value scaled from the index into 0-6; once exhausted it keeps returning
/// completion unchanged.
pub open spec fn spin_next_rel(pre: SpinIterator, post: SpinIterator, r: Option<Grid>) -> bool {
    &&& post.frames == pre.frames
    &&& if pre.current_frame < pre.frames {
        &&& post.current_frame == pre.current_frame + 1
        &&& r is Some
        &&& r->Some_0@ == spin_frame_spec(
            pre.current_frame + 1,
            6 * (pre.current_frame + 1) / (pre.frames as int),
        )
    } else {
        &&& post == pre
        &&& r is None
    }
}

impl SpinIterator {
    /// The next spinner frame, or completion once all frames are consumed.
    pub fn next(&mut self) -> (r: Option<Grid>)
        ensures
            spin_next_rel(*old(self), *final(self), r),
    {
        if self.current_frame < self.frames {
            self.current_frame = self.current_frame + 1;
            let progress: usize = ((6u128 * (self.current_frame as u128)) / (
            self.frames as u128)) as usize;
            proof {
                assert(6 * (self.current_frame as int) / (self.frames as int) <= 6)
                    by (nonlinear_arith)
                    requires
                        0 < self.frames as int,
                        self.current_frame as int <= self.frames as int,
                ;
            }
            Some(spin_frame(self.current_frame, progress))
        } else {
            None
        }
    }
}

/// The travelling wave effect.
#[derive(Clone, Copy)]
pub struct WaveIterator {
    pub frames: usize,
    pub current_frame: usize,
}

impl WaveIterator {
    /// A wave of `frames` frames, none consumed yet.
    pub fn new(frames: usize) -> (r: Self)
        ensures
            r.frames == frames,
            r.current_frame == 0,
    {
        Self { frames, current_frame: 0 }
    }
}

impl Default for WaveIterator {
    /// The default wave length of 128 frames.
    fn default() -> (r: Self)
        ensures
            r.frames == 128,
            r.current_frame == 0,
    {
        WaveIterator::new(128)
    }
}

/// What one `next` call on the wave does: while frames remain it consumes
/// one and returns the wave frame for the new index; once exhausted it keeps
/// returning completion unchanged.
pub open spec fn wave_next_rel(pre: WaveIterator, post: WaveIterator, r: Option<Grid>) -> bool {
    &&& post.frames == pre.frames
    &&& if pre.current_frame < pre.frames {
        &&& post.current_frame == pre.current_frame + 1
        &&& r is Some
        &&& r->Some_0@ == wave_frame(pre.current_frame + 1)
    } else {
        &&& post == pre
        &&& r is None
    }
}

impl WaveIterator {
    /// The next wave frame, or completion once all frames are consumed.
    pub fn next(&mut self) -> (r: Option<Grid>)
        ensures
            wave_next_rel(*old(self), *final(self), r),
    {
        if self.current_frame < self.frames {
            self.current_frame = self.current_frame + 1;
            let k = self.current_frame;
            let mut cells: [[u8; 9]; 8] = [[0u8; 9]; 8];
            let mut x: usize = 0;
            while x < 8
                invariant
                    x <= 8,
                    forall|i: int| 0 <= i < x ==> cells[i]@ == wave_frame(k as int)[i],
                decreases 8 - x,
            {
                let mut col: [u8; 9] = [0u8; 9];
                let mut y: usize = 0;
                while y < 9
                    invariant
                        x < 8,
                        y <= 9,
                        forall|j: int| 0 <= j < y ==> col@[j] == wave_frame(k as int)[x as int][j],
                    decreases 9 - y,
                {
                    let index: usize = (((x as u128) + 8 * (y as u128) + (k as u128)) % 72) as usize;
                    let brightness: usize = index * 3;
                    col[y] = if brightness > 255 {
                        0
                    } else {
                        brightness as u8
                    };
                    y = y + 1;
                }
                proof {
                    assert(col@ =~= wave_frame(k as int)[x as int]);
                }
                cells[x] = col;
                x = x + 1;
            }
            let g = Grid(cells);
            proof {
                assert(g@ =~~= wave_frame(k as int));
            }
            Some(g)
        } else {
            None
        }
    }
}

/// The closed set of animation variants, behind one uniform
/// produce-next-frame-or-signal-done operation.
#[derive(Clone, Copy)]
pub enum Animation {
    Percentage(StartupPercentageIterator),
    Breathing(BreathingIterator),
    Spin(SpinIterator),
    Wave(WaveIterator),
}

impl Animation {
    /// The next frame of whichever variant is active, or completion; the
    /// variant never changes, and an exhausted animation keeps signaling
    /// completion.
    pub fn next(&mut self) -> (r: Option<Grid>)
        ensures
            (*old(self)) is Percentage ==> (*final(self)) is Percentage && percentage_next_rel(
                (*old(self))->Percentage_0,
                (*final(self))->Percentage_0,
                r,
            ),
            (*old(self)) is Breathing ==> (*final(self)) is Breathing && breathing_next_rel(
                (*old(self))->Breathing_0,
                (*final(self))->Breathing_0,
                r,
            ),
            (*old(self)) is Spin ==> (*final(self)) is Spin && spin_next_rel(
                (*old(self))->Spin_0,
                (*final(self))->Spin_0,
                r,
            ),
            (*old(self)) is Wave ==> (*final(self)) is Wave && wave_next_rel(
                (*old(self))->Wave_0,
                (*final(self))->Wave_0,
                r,
            ),
    {
        match *self {
            Animation::Percentage(mut x) => {
                let r = x.next();
                *self = Animation::Percentage(x);
                r
            },
            Animation::Breathing(mut x) => {
                let r = x.next();
                *self = Animation::Breathing(x);
                r
            },
            Animation::Spin(mut x) => {
                let r = x.next();
                *self = Animation::Spin(x);
                r
            },
            Animation::Wave(mut x) => {
                let r = x.next();
                *self = Animation::Wave(x);
                r
            },
        }
    }
}

/// Counts the lit (full-brightness) cells among the first `n` cells of a
/// grid in row-major scan order.
pub open spec fn lit_cells_upto(g: Seq<Seq<u8>>, n: int) -> int
    decreases n,
{
    if n <= 0 {
        0
    } else {
        lit_cells_upto(g, n - 1) + if g[(n - 1) % 8][(n - 1) / 8] == 255 {
            1int
        } else {
            0int
        }
    }
}

/// Counts the lit cells of a whole grid.
pub open spec fn lit_cell_count(g: Seq<Seq<u8>>) -> int {
    lit_cells_upto(g, 72)
}

proof fn lemma_percentage_lit_upto(k: int, n: int)
    requires
        0 <= k <= 72,
        0 <= n <= 72,
    ensures
        lit_cells_upto(percentage_frame(k), n) == if n <= k {
            n
        } else {
            k
        },
    decreases n,
{
    if n > 0 {
        lemma_percentage_lit_upto(k, n - 1);
        vstd::arithmetic::div_mod::lemma_fundamental_div_mod(n - 1, 8);
    }
}

/// The progressive fill's frame `k` lights exactly `k` cells.
pub proof fn lemma_percentage_frame_lit_count(k: int)
    requires
        0 <= k <= 72,
    ensures
        lit_cell_count(percentage_frame(k)) == k,
{
    lemma_percentage_lit_upto(k, 72);
}

/// No wave frame ever holds a brightness above 252: every cell is a multiple
/// of 3 below the 8-bit range, or dark.
pub proof fn lemma_wave_cell_bounded(x: int, y: int, k: int)
    ensures
        wave_cell(x, y, k) <= 252,
{
}

} // verus!
