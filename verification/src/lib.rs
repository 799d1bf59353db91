//! A verified core for a small paginated text reader.
//!
//! A compiled document program (an instruction stream plus a text blob) is
//! interpreted by a one-pass render engine into a bounded page of styled
//! lines. Scroll and keyboard input reach the engine through a single-slot,
//! latest-wins mailbox. Everything here is plain data and state transitions;
//! the hardware edges (display, keyboard bus, radio) live outside and hand
//! these functions plain values.

pub mod input;
pub mod mailbox;
pub mod program;
pub mod reader;
pub mod render;
pub mod scroll;
pub mod style;
