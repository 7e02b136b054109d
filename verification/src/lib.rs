//! Core of an embeddable terminal emulator: an escape-sequence decoding state
//! machine and the dual-buffer screen model it drives (cursor, character grid,
//! attributes, scrollback ring, alternate screen).
//!
//! The pseudo-terminal session and the rendering layer live outside of this
//! crate; they exchange plain byte buffers and read the screen state.

pub mod cell;
pub mod input;
pub mod laws;
pub mod processor;
pub mod screen;
