//! Per-device display state: the live grid, the scratch buffer, brightness
//! and backlight settings, the in-progress animation, and the sleep state
//! machine with its saved snapshot.

use vstd::prelude::*;

use crate::animations::Animation;
use crate::grid::Grid;

verus! {

/// One backlight color, as plain red, green and blue channel values.
#[derive(Clone, Copy, Debug, PartialEq, Eq, Structural)]
pub struct Rgb {
    pub r: u8,
    pub g: u8,
    pub b: u8,
}

/// The selectable LED PWM frequencies, in Hz.
#[derive(Clone, Copy, Debug, PartialEq, Eq, Structural)]
pub enum PwmFreq {
    Hz29000,
    Hz3600,
    Hz1800,
    Hz58000,
}

/// Why a sleep or wake transition was requested. The reason is only an input
/// to the transition; it is never stored.
#[derive(Clone, Copy, Debug, PartialEq, Eq, Structural)]
pub enum SleepReason {
    Command,
    SleepPin,
    Timeout,
    UsbSuspend,
}

/// Whether the device is asleep; if asleep, holds the grid and brightness to
/// restore on wake. The snapshot exists exactly when the state is
/// `Sleeping`, by construction.
#[derive(Clone, Copy)]
pub enum SleepState {
    Awake,
    Sleeping((Grid, u8)),
}

/// All state of one display unit for one powered-on session.
pub struct SevenSegmentState {
    /// Currently displayed grid
    pub grid: Grid,
    /// Temporary buffer for building a new grid
    pub col_buffer: Grid,
    /// Whether the grid is currently being animated
    pub animate: bool,
    /// LED brightness out of 255
    pub brightness: u8,
    /// Backlight colors, one per physical zone
    pub color: [Rgb; 5],
    /// Current sleep state
    pub sleeping: SleepState,
    /// Desired milliseconds between animation frames; timing itself is the
    /// owning loop's concern
    pub animation_period: u64,
    /// Current LED PWM frequency
    pub pwm_freq: PwmFreq,
    /// Whether debug mode is active: callers then skip the animated variants
    /// of startup and of the sleep transitions, and never sleep automatically
    pub debug_mode: bool,
    /// The animation whose frames are being consumed, if any; starting a new
    /// one replaces this outright
    pub upcoming_frames: Option<Animation>,
}

/// The state after a sleep request: an awake device captures the live grid
/// and brightness into the snapshot; a sleeping one is left untouched.
pub open spec fn slept(st: SevenSegmentState) -> SevenSegmentState {
    match st.sleeping {
        SleepState::Awake => SevenSegmentState {
            sleeping: SleepState::Sleeping((st.grid, st.brightness)),
            ..st
        },
        SleepState::Sleeping(_) => st,
    }
}

/// The state after a wake request: a sleeping device restores the snapshot's
/// grid and brightness and discards it; an awake one is left untouched.
pub open spec fn woken(st: SevenSegmentState) -> SevenSegmentState {
    match st.sleeping {
        SleepState::Awake => st,
        SleepState::Sleeping(saved) => SevenSegmentState {
            grid: saved.0,
            brightness: saved.1,
            sleeping: SleepState::Awake,
            ..st
        },
    }
}

impl SevenSegmentState {
    /// A fresh, awake device: both buffers dark, full brightness, no
    /// animation, backlights off.
    pub fn new() -> (st: Self)
        ensures
            st.grid@ == Grid::blank_spec(),
            st.col_buffer@ == Grid::blank_spec(),
            st.animate == false,
            st.brightness == 255,
            forall|i: int| 0 <= i < 5 ==> st.color[i] == (Rgb { r: 0, g: 0, b: 0 }),
            st.sleeping is Awake,
            st.animation_period == 30,
            st.pwm_freq == PwmFreq::Hz29000,
            st.debug_mode == false,
            st.upcoming_frames is None,
    {
        SevenSegmentState {
            grid: Grid::default(),
            col_buffer: Grid::default(),
            animate: false,
            brightness: 255,
            color: [Rgb { r: 0, g: 0, b: 0 }; 5],
            sleeping: SleepState::Awake,
            animation_period: 30,
            pwm_freq: PwmFreq::Hz29000,
            debug_mode: false,
            upcoming_frames: None,
        }
    }

    /// Commits the scratch buffer: copies `col_buffer` into the live grid.
    /// The buffers stay separate; nothing else changes.
    pub fn commit_buffer(&mut self)
        ensures
            *final(self) == (SevenSegmentState { grid: old(self).col_buffer, ..*old(self) }),
    {
        self.grid = self.col_buffer;
    }

    /// Requests sleep: when awake, captures the live grid and brightness
    /// exactly once; when already sleeping, a no-op. Blanking or dimming the
    /// live grid afterwards is the caller's policy. The reason is an input
    /// only and is not recorded.
    pub fn sleep(&mut self, _reason: SleepReason)
        ensures
            *final(self) == slept(*old(self)),
    {
        match self.sleeping {
            SleepState::Awake => {
                self.sleeping = SleepState::Sleeping((self.grid, self.brightness));
            },
            SleepState::Sleeping(_) => {},
        }
    }

    /// Requests wake: when sleeping, restores the saved grid and brightness
    /// exactly once and discards the snapshot; when already awake, a no-op.
    /// The reason is an input only and is not recorded.
    pub fn wake(&mut self, _reason: SleepReason)
        ensures
            *final(self) == woken(*old(self)),
    {
        match self.sleeping {
            SleepState::Awake => {},
            SleepState::Sleeping(saved) => {
                self.grid = saved.0;
                self.brightness = saved.1;
                self.sleeping = SleepState::Awake;
            },
        }
    }
}

/// Sleeping and then waking an awake device restores exactly the grid and
/// brightness it had, leaves it awake with no snapshot remaining, and touches
/// nothing else.
pub proof fn lemma_sleep_wake_round_trip(st: SevenSegmentState)
    requires
        st.sleeping is Awake,
    ensures
        woken(slept(st)) == st,
        slept(st).sleeping is Sleeping,
{
}

} // verus!
