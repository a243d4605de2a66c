//! Core logic of a small keypad-and-display firmware.
//!
//! Two components carry all of the state and protocol logic:
//!
//! * [`keypad`] — a 4x4 matrix keypad: the row-strobe schedule, the
//!   (row, column) decode table, and edge-triggered key-change reporting.
//! * [`lcd`] — a character-LCD driver behind an I2C GPIO expander: the
//!   initialization handshake that brings the controller into 4-bit mode,
//!   and the nibble-multiplexed write protocol used afterwards.
//!
//! Neither component touches hardware. The keypad consumes sampled column
//! grids and the LCD emits bus operations; the surrounding program owns the
//! GPIO lines and the I2C bus and drives both components step by step.

pub mod keypad;
pub mod lcd;
