//! Fixed configuration: key bindings, movement speed, screen bounds, and the
//! constants of the output protocol.

use vstd::prelude::*;

verus! {

/// Key code whose hold-state gates all movement and button translation
/// (the Super/Meta key on most keyboards).
pub const MODIFIER_KEY: u16 = 125;

/// Key code that moves the pointer left (the Left arrow).
pub const MOVE_LEFT_KEY: u16 = 105;

/// Key code that moves the pointer right (the Right arrow).
pub const MOVE_RIGHT_KEY: u16 = 106;

/// Key code that moves the pointer up (the Up arrow).
pub const MOVE_UP_KEY: u16 = 103;

/// Key code that moves the pointer down (the Down arrow).
pub const MOVE_DOWN_KEY: u16 = 108;

/// Key code that stands for the left pointer button.
pub const BUTTON_LEFT_KEY: u16 = 97;

/// Key code that stands for the right pointer button.
pub const BUTTON_RIGHT_KEY: u16 = 96;

/// Pointer displacement, in screen units per tick, contributed by each held
/// directional key.
pub const POINTER_SPEED: u32 = 10;

/// Width of the fixed virtual screen rectangle; the x coordinate is clamped
/// to `[0, SCREEN_WIDTH]`.
pub const SCREEN_WIDTH: u32 = 1920;

/// Height of the fixed virtual screen rectangle; the y coordinate is clamped
/// to `[0, SCREEN_HEIGHT]`.
pub const SCREEN_HEIGHT: u32 = 1080;

/// Denominator of the fixed-point coordinate convention the output sink
/// expects: each axis is reported in `[0, NORM_MAX]`.
pub const NORM_MAX: u32 = 65535;

/// Button code the output sink understands as the left pointer button.
pub const BTN_LEFT_CODE: u32 = 0x110;

/// Button code the output sink understands as the right pointer button.
pub const BTN_RIGHT_CODE: u32 = 0x111;

/// Sleep interval of the tick loop, in milliseconds.
pub const TICK_INTERVAL_MS: u64 = 8;

} // verus!
