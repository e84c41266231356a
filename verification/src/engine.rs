//! The translation engine: on each tick it reads the set of held keys,
//! derives a velocity vector and button intents, integrates and clamps the
//! absolute position, and decides which output events the tick must emit.

use vstd::prelude::*;

use crate::config::BUTTON_LEFT_KEY;
use crate::config::BUTTON_RIGHT_KEY;
use crate::config::MODIFIER_KEY;
use crate::config::MOVE_DOWN_KEY;
use crate::config::MOVE_LEFT_KEY;
use crate::config::MOVE_RIGHT_KEY;
use crate::config::MOVE_UP_KEY;
use crate::config::POINTER_SPEED;
use crate::config::SCREEN_HEIGHT;
use crate::config::SCREEN_WIDTH;
use crate::keys::ActiveKeySet;

verus! {

/// Pointer state that persists across ticks: the absolute position inside the
/// virtual screen rectangle, and the button levels as of the previous tick,
/// kept to detect edge transitions.
#[derive(Clone, Copy, Debug, PartialEq, Eq, Structural)]
pub struct PointerState {
    pub x: u32,
    pub y: u32,
    pub last_left_button: bool,
    pub last_right_button: bool,
}

/// A discrete button transition decided by one tick.
#[derive(Clone, Copy, Debug, PartialEq, Eq, Structural)]
pub enum ButtonAction {
    Press,
    Release,
}

/// The outcome of one tick: the velocity that was applied, the new absolute
/// position, whether a motion event is to be emitted, and the button
/// transitions, if any. Produced and consumed within a single tick.
#[derive(Clone, Copy, Debug, PartialEq, Eq)]
pub struct TickResult {
    pub dx: i32,
    pub dy: i32,
    pub x: u32,
    pub y: u32,
    pub motion: bool,
    pub left: Option<ButtonAction>,
    pub right: Option<ButtonAction>,
}

impl PointerState {
    /// The position lies inside the virtual screen rectangle.
    pub open spec fn wf(self) -> bool {
        self.x <= SCREEN_WIDTH && self.y <= SCREEN_HEIGHT
    }

    /// The initial state: the pointer rests at the origin with both buttons
    /// up.
    pub fn new() -> (s: Self)
        ensures
            s.wf(),
            s.x == 0,
            s.y == 0,
            !s.last_left_button,
            !s.last_right_button,
    {
        PointerState { x: 0, y: 0, last_left_button: false, last_right_button: false }
    }
}

impl TickResult {
    /// A tick result that carries no event at all.
    pub open spec fn is_empty(self) -> bool {
        !self.motion && self.left is None && self.right is None
    }
}

/// Net horizontal velocity derived from the held keys: each directional key
/// contributes its fixed speed, so opposing keys cancel exactly.
pub open spec fn dx_of(keys: Set<u16>) -> int {
    (if keys.contains(MOVE_LEFT_KEY) {
        -(POINTER_SPEED as int)
    } else {
        0
    }) + (if keys.contains(MOVE_RIGHT_KEY) {
        POINTER_SPEED as int
    } else {
        0
    })
}

/// Net vertical velocity derived from the held keys; y grows downwards.
pub open spec fn dy_of(keys: Set<u16>) -> int {
    (if keys.contains(MOVE_UP_KEY) {
        -(POINTER_SPEED as int)
    } else {
        0
    }) + (if keys.contains(MOVE_DOWN_KEY) {
        POINTER_SPEED as int
    } else {
        0
    })
}

/// Saturating clamp of `v` to `[0, hi]`.
pub open spec fn clamped(v: int, hi: int) -> int {
    if v < 0 {
        0
    } else if v > hi {
        hi
    } else {
        v
    }
}

/// The edge-trigger rule: a transition is emitted only when the intent
/// differs from the previous level.
pub open spec fn spec_transition(last: bool, intent: bool) -> Option<ButtonAction> {
    if intent && !last {
        Some(ButtonAction::Press)
    } else if !intent && last {
        Some(ButtonAction::Release)
    } else {
        None
    }
}

/// The tick result of a gated tick: no events, position carried through.
pub open spec fn empty_result(prev: PointerState) -> TickResult {
    TickResult {
        dx: 0,
        dy: 0,
        x: prev.x,
        y: prev.y,
        motion: false,
        left: None,
        right: None,
    }
}

/// The pointer state after one tick. Without the modifier held the state is
/// returned unchanged; otherwise each axis integrates its velocity and is
/// clamped to the screen rectangle, and the button levels are the current
/// intents.
pub open spec fn spec_tick_state(keys: Set<u16>, prev: PointerState) -> PointerState {
    if !keys.contains(MODIFIER_KEY) {
        prev
    } else {
        PointerState {
            x: clamped(prev.x + dx_of(keys), SCREEN_WIDTH as int) as u32,
            y: clamped(prev.y + dy_of(keys), SCREEN_HEIGHT as int) as u32,
            last_left_button: keys.contains(BUTTON_LEFT_KEY),
            last_right_button: keys.contains(BUTTON_RIGHT_KEY),
        }
    }
}

/// The events decided by one tick. Without the modifier held the result is
/// empty; otherwise a motion event is present exactly when the velocity is
/// nonzero, and each button contributes a transition exactly when its intent
/// changed.
pub open spec fn spec_tick_result(keys: Set<u16>, prev: PointerState) -> TickResult {
    if !keys.contains(MODIFIER_KEY) {
        empty_result(prev)
    } else {
        TickResult {
            dx: dx_of(keys) as i32,
            dy: dy_of(keys) as i32,
            x: spec_tick_state(keys, prev).x,
            y: spec_tick_state(keys, prev).y,
            motion: dx_of(keys) != 0 || dy_of(keys) != 0,
            left: spec_transition(prev.last_left_button, keys.contains(BUTTON_LEFT_KEY)),
            right: spec_transition(prev.last_right_button, keys.contains(BUTTON_RIGHT_KEY)),
        }
    }
}

/// Integrate one axis and clamp it to `[0, hi]`, saturating at both ends.
fn clamp_add(v: u32, d: i32, hi: u32) -> (r: u32)
    requires
        v <= hi,
    ensures
        r == clamped(v + d, hi as int),
{
    let s: i64 = v as i64 + d as i64;
    if s < 0 {
        0
    } else if s > hi as i64 {
        hi
    } else {
        s as u32
    }
}

/// One engine tick: derives the new pointer state and the events to emit
/// from the currently held keys and the previous state.
pub fn tick(active: &ActiveKeySet, prev: PointerState) -> (r: (PointerState, TickResult))
    requires
        prev.wf(),
    ensures
        r.0.wf(),
        r.0 == spec_tick_state(active@, prev),
        r.1 == spec_tick_result(active@, prev),
{
    if !active.contains(MODIFIER_KEY) {
        let result = TickResult {
            dx: 0,
            dy: 0,
            x: prev.x,
            y: prev.y,
            motion: false,
            left: None,
            right: None,
        };
        return (prev, result);
    }
    let mut dx: i32 = 0;
    let mut dy: i32 = 0;
    if active.contains(MOVE_LEFT_KEY) {
        dx = dx - POINTER_SPEED as i32;
    }
    if active.contains(MOVE_RIGHT_KEY) {
        dx = dx + POINTER_SPEED as i32;
    }
    if active.contains(MOVE_UP_KEY) {
        dy = dy - POINTER_SPEED as i32;
    }
    if active.contains(MOVE_DOWN_KEY) {
        dy = dy + POINTER_SPEED as i32;
    }
    let x = clamp_add(prev.x, dx, SCREEN_WIDTH);
    let y = clamp_add(prev.y, dy, SCREEN_HEIGHT);
    let left_intent = active.contains(BUTTON_LEFT_KEY);
    let right_intent = active.contains(BUTTON_RIGHT_KEY);
    let next = PointerState {
        x,
        y,
        last_left_button: left_intent,
        last_right_button: right_intent,
    };
    let result = TickResult {
        dx,
        dy,
        x,
        y,
        motion: dx != 0 || dy != 0,
        left: transition(prev.last_left_button, left_intent),
        right: transition(prev.last_right_button, right_intent),
    };
    (next, result)
}

/// Decide the edge transition for one button.
fn transition(last: bool, intent: bool) -> (t: Option<ButtonAction>)
    ensures
        t == spec_transition(last, intent),
{
    if intent && !last {
        Some(ButtonAction::Press)
    } else if !intent && last {
        Some(ButtonAction::Release)
    } else {
        None
    }
}

/// The pointer state after `n` ticks under a constant key set.
pub open spec fn spec_tick_n(keys: Set<u16>, start: PointerState, n: nat) -> PointerState
    decreases n,
{
    if n == 0 {
        start
    } else {
        spec_tick_state(keys, spec_tick_n(keys, start, (n - 1) as nat))
    }
}

/// Without the modifier held, a tick changes nothing and emits nothing,
/// whatever other keys are in the set.
pub proof fn lemma_modifier_gates_tick(keys: Set<u16>, prev: PointerState)
    requires
        !keys.contains(MODIFIER_KEY),
    ensures
        spec_tick_state(keys, prev) == prev,
        spec_tick_result(keys, prev) == empty_result(prev),
        spec_tick_result(keys, prev).is_empty(),
{
}

/// With the modifier held but no directional key, the tick emits no motion
/// event and leaves the position where it was, whatever that position is.
pub proof fn lemma_stationary_hold_suppresses_motion(keys: Set<u16>, prev: PointerState)
    requires
        prev.wf(),
        keys.contains(MODIFIER_KEY),
        !keys.contains(MOVE_LEFT_KEY),
        !keys.contains(MOVE_RIGHT_KEY),
        !keys.contains(MOVE_UP_KEY),
        !keys.contains(MOVE_DOWN_KEY),
    ensures
        !spec_tick_result(keys, prev).motion,
        spec_tick_state(keys, prev).x == prev.x,
        spec_tick_state(keys, prev).y == prev.y,
{
}

/// Clamping saturates at the lower bound: from the origin, any number of
/// ticks with the modifier and the left and up keys held leaves the pointer
/// at the origin, never driving a coordinate negative.
pub proof fn lemma_clamping_saturates_at_origin(keys: Set<u16>, start: PointerState, n: nat)
    requires
        start.x == 0,
        start.y == 0,
        keys.contains(MODIFIER_KEY),
        keys.contains(MOVE_LEFT_KEY),
        keys.contains(MOVE_UP_KEY),
    ensures
        spec_tick_n(keys, start, n).x == 0,
        spec_tick_n(keys, start, n).y == 0,
    decreases n,
{
    if n > 0 {
        lemma_clamping_saturates_at_origin(keys, start, (n - 1) as nat);
    }
}

/// Clamping saturates at the upper bound: from the far screen corner, any
/// number of ticks with the modifier and the right and down keys held leaves
/// the pointer at that corner.
pub proof fn lemma_clamping_saturates_at_corner(keys: Set<u16>, start: PointerState, n: nat)
    requires
        start.x == SCREEN_WIDTH,
        start.y == SCREEN_HEIGHT,
        keys.contains(MODIFIER_KEY),
        keys.contains(MOVE_RIGHT_KEY),
        keys.contains(MOVE_DOWN_KEY),
    ensures
        spec_tick_n(keys, start, n).x == SCREEN_WIDTH,
        spec_tick_n(keys, start, n).y == SCREEN_HEIGHT,
    decreases n,
{
    if n > 0 {
        lemma_clamping_saturates_at_corner(keys, start, (n - 1) as nat);
    }
}

/// Opposing horizontal keys cancel exactly: whenever both are held, the net
/// horizontal velocity of the tick is zero, and so is the horizontal
/// component of the tick result.
pub proof fn lemma_opposing_keys_cancel(keys: Set<u16>, prev: PointerState)
    requires
        keys.contains(MOVE_LEFT_KEY),
        keys.contains(MOVE_RIGHT_KEY),
    ensures
        dx_of(keys) == 0,
        spec_tick_result(keys, prev).dx == 0,
{
}

/// While the modifier and the left button key stay held, the button level
/// recorded in the state is down after every tick but the zeroth.
proof fn lemma_left_level_stays_down(keys: Set<u16>, start: PointerState, n: nat)
    requires
        n >= 1,
        keys.contains(MODIFIER_KEY),
        keys.contains(BUTTON_LEFT_KEY),
    ensures
        spec_tick_n(keys, start, n).last_left_button,
    decreases n,
{
    if n > 1 {
        lemma_left_level_stays_down(keys, start, (n - 1) as nat);
    }
}

/// Buttons are edge-triggered: holding the modifier and the left button key
/// across a run of consecutive ticks emits exactly one press transition, on
/// the first tick; every later tick of the run emits no left transition.
pub proof fn lemma_button_edge_triggering(keys: Set<u16>, start: PointerState, n: nat)
    requires
        !start.last_left_button,
        keys.contains(MODIFIER_KEY),
        keys.contains(BUTTON_LEFT_KEY),
    ensures
        spec_tick_result(keys, start).left == Some(ButtonAction::Press),
        n >= 1 ==> spec_tick_result(keys, spec_tick_n(keys, start, n)).left is None,
{
    if n >= 1 {
        lemma_left_level_stays_down(keys, start, n);
    }
}

/// Releasing the button key is also edge-triggered: a tick whose key set no
/// longer holds the left button key, taken from a state whose recorded level
/// is down, emits exactly one release transition; and once the level is up,
/// further ticks without the key emit nothing for that button.
pub proof fn lemma_button_release_edge(keys: Set<u16>, prev: PointerState)
    requires
        prev.last_left_button,
        keys.contains(MODIFIER_KEY),
        !keys.contains(BUTTON_LEFT_KEY),
    ensures
        spec_tick_result(keys, prev).left == Some(ButtonAction::Release),
        !spec_tick_state(keys, prev).last_left_button,
        spec_tick_result(keys, spec_tick_state(keys, prev)).left is None,
{
}

} // verus!
