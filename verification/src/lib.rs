//! Keyboard-driven pointer control.
//!
//! Holding a designated modifier key together with directional keys moves a
//! synthetic pointer inside a fixed virtual screen rectangle; two further keys
//! emit left/right button presses. This crate holds the translation engine:
//! the set of currently held keys, the per-tick derivation of velocity and
//! button intent, position integration with saturating clamping, and the
//! planning of the instruction batches that a virtual-pointer sink expects.
//! The device event source and the sink protocol session live outside it.

pub mod config;
pub mod emitter;
pub mod engine;
pub mod keys;
pub mod negotiator;
