//! Control core of a two-player digital chess clock: countdown timers,
//! debounced switch inputs with long-press detection, a mode state machine
//! for play and in-place configuration editing, a millisecond-to-digit
//! display codec, and a fixed-size binary configuration record.
//!
//! The core performs no I/O. A hardware shell samples switches, drives the
//! display and the buzzer, and reads or writes the non-volatile store; it
//! talks to this library through plain values only.

pub mod chess_clock;
pub mod code_b;
pub mod config;
pub mod descriptor;
pub mod digits;
pub mod switch;
pub mod timer;
