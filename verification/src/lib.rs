//! Display state and animation engine for an 8-by-9 grid of dimmable LEDs
//! arranged as nine 7-segment digit cells, each with a decimal point.

pub mod animations;
pub mod command;
pub mod display;
pub mod font;
pub mod grid;
pub mod state;
