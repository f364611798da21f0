//! Drive a single digital output pin to reproduce a dot/dash/space
//! pattern as timed on/off pulses, following the Morse-code spacing
//! convention.
//!
//! The heart of the crate is pure, verified logic: [`morse::encode`]
//! turns a pattern string and a base time unit into the exact sequence
//! of pin levels and hold durations, and [`player::Player`] is the
//! state machine that hands those actions one by one to whatever loop
//! owns the real pin and clock, repeating the pattern forever with the
//! standard word gap between passes and halting for good on the first
//! hardware failure.

pub mod config;
pub mod morse;
pub mod player;
