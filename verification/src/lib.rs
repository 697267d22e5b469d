//! Verified logic for a small fleet of hobby peripherals built around a
//! chained 8x8 LED dot-matrix display.
//!
//! The heart of the crate is the display pipeline: a logical pixel buffer
//! with a dirty-flag cache ([`display`]), the geometric transpose that turns
//! that buffer into per-chip row bytes ([`geometry`]), and the falling-block
//! game that feeds the buffer each tick ([`tetrimino`], [`game`]).
//! The remaining modules hold the pure, verifiable parts of the surrounding
//! peripherals: register encodings, seven-segment digits, colour values,
//! melodies, and the decision logic of the small games and controls.

pub mod accel;
pub mod color;
pub mod digits;
pub mod display;
pub mod dtmf;
pub mod game;
pub mod geometry;
pub mod lcd;
pub mod melody;
pub mod motor;
pub mod mp3;
pub mod player;
pub mod registers;
pub(crate) mod rng;
pub mod scale;
pub mod sdcard;
pub mod sensor;
pub mod tetrimino;
