//! The host-side command vocabulary: the static patterns, the named
//! backlight colors, and the full set of set-or-get options a controller can
//! hand the device. Every set-or-get option is doubly optional: absent means
//! "leave alone", present without a value means "query", present with a
//! value means "set".

use vstd::prelude::*;

use crate::state::Rgb;

verus! {

/// The selectable static display patterns.
#[derive(Clone, Copy, Debug, PartialEq, Eq, Structural)]
pub enum Pattern {
    Percentage,
    Gradient,
    DoubleGradient,
    LotusSideways,
    Zigzag,
    AllOn,
    Panic,
    LotusTopDown,
}

/// The named backlight colors.
#[derive(Clone, Copy, Debug, PartialEq, Eq, Structural)]
pub enum Color {
    White,
    Black,
    Red,
    Green,
    Blue,
    Yellow,
    Cyan,
    Purple,
}

/// The channel values of each named color.
pub open spec fn color_rgb(c: Color) -> Rgb {
    match c {
        Color::White => Rgb { r: 255, g: 255, b: 255 },
        Color::Black => Rgb { r: 0, g: 0, b: 0 },
        Color::Red => Rgb { r: 255, g: 0, b: 0 },
        Color::Green => Rgb { r: 0, g: 255, b: 0 },
        Color::Blue => Rgb { r: 0, g: 0, b: 255 },
        Color::Yellow => Rgb { r: 255, g: 255, b: 0 },
        Color::Cyan => Rgb { r: 0, g: 255, b: 255 },
        Color::Purple => Rgb { r: 255, g: 0, b: 255 },
    }
}

impl Color {
    /// The red, green and blue channel values of this named color.
    pub fn to_rgb(self) -> (r: Rgb)
        ensures
            r == color_rgb(self),
    {
        match self {
            Color::White => Rgb { r: 255, g: 255, b: 255 },
            Color::Black => Rgb { r: 0, g: 0, b: 0 },
            Color::Red => Rgb { r: 255, g: 0, b: 0 },
            Color::Green => Rgb { r: 0, g: 255, b: 0 },
            Color::Blue => Rgb { r: 0, g: 0, b: 255 },
            Color::Yellow => Rgb { r: 255, g: 255, b: 0 },
            Color::Cyan => Rgb { r: 0, g: 255, b: 255 },
            Color::Purple => Rgb { r: 255, g: 0, b: 255 },
        }
    }
}

/// One invocation of the seven-segment controller: each field is one command
/// the transport layer delivers to the device.
pub struct SevenSegmentSubcommand {
    /// Set LED max brightness, or get it if no value provided
    pub brightness: Option<Option<u8>>,
    /// Set sleep status, or get it if no value provided
    pub sleeping: Option<Option<bool>>,
    /// Jump to the bootloader
    pub bootloader: bool,
    /// Display a percentage (0-100)
    pub percentage: Option<u8>,
    /// Start/stop animation
    pub animate: Option<Option<bool>>,
    /// Display a pattern
    pub pattern: Option<Pattern>,
    /// Show every brightness, one per pixel
    pub all_brightnesses: bool,
    /// Blink the current pattern once a second
    pub blinking: bool,
    /// Breathing brightness of the current pattern
    pub breathing: bool,
    /// Clock
    pub clock: bool,
    /// Display a string (max 9-18 chars)
    pub string: Option<String>,
    /// Set the legend backlight color
    pub set_color: Option<Color>,
    /// Set/get animation FPS
    pub animation_fps: Option<Option<u16>>,
    /// Set/get PWM Frequency in Hz
    pub pwm_freq: Option<Option<u16>>,
    /// Set debug mode, or get the current mode if no value provided
    pub debug_mode: Option<Option<bool>>,
    /// Crash the firmware (diagnostic only)
    pub panic: bool,
    /// Get the device version
    pub version: bool,
}

} // verus!
