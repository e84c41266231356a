use keypointer::config::BTN_LEFT_CODE;
use keypointer::config::BTN_RIGHT_CODE;
use keypointer::config::BUTTON_LEFT_KEY;
use keypointer::config::BUTTON_RIGHT_KEY;
use keypointer::config::MODIFIER_KEY;
use keypointer::config::MOVE_RIGHT_KEY;
use keypointer::config::NORM_MAX;
use keypointer::config::SCREEN_HEIGHT;
use keypointer::config::SCREEN_WIDTH;
use keypointer::emitter::normalize;
use keypointer::emitter::plan_emission;
use keypointer::emitter::tick_and_plan;
use keypointer::emitter::Instruction;
use keypointer::engine::tick;
use keypointer::engine::PointerState;
use keypointer::keys::ActiveKeySet;

fn hold(keys: &[u16]) -> ActiveKeySet {
    let mut set = ActiveKeySet::new();
    for &k in keys {
        set.on_key_press(k);
    }
    set
}

#[test]
fn normalization_matches_the_fixed_point_convention() {
    assert_eq!(normalize(110, SCREEN_WIDTH), 3755);
    assert_eq!(normalize(200, SCREEN_HEIGHT), 12136);
    assert_eq!(normalize(0, SCREEN_WIDTH), 0);
    assert_eq!(normalize(0, SCREEN_HEIGHT), 0);
    assert_eq!(normalize(SCREEN_WIDTH, SCREEN_WIDTH), NORM_MAX);
    assert_eq!(normalize(SCREEN_HEIGHT, SCREEN_HEIGHT), NORM_MAX);
    assert_eq!(normalize(960, SCREEN_WIDTH), 32768);
    assert_eq!(normalize(540, SCREEN_HEIGHT), 32768);
}

#[test]
fn motion_tick_plans_one_motion_frame() {
    let active = hold(&[MODIFIER_KEY, MOVE_RIGHT_KEY]);
    let prev = PointerState { x: 100, y: 200, last_left_button: false, last_right_button: false };
    let (_, result) = tick(&active, prev);
    let instrs = plan_emission(&result);
    assert_eq!(
        instrs,
        vec![
            Instruction::MotionAbsolute { x_norm: 3755, y_norm: 12136 },
            Instruction::FrameClose,
        ]
    );
}

#[test]
fn stationary_tick_plans_nothing() {
    let active = hold(&[MODIFIER_KEY]);
    let prev = PointerState { x: 100, y: 200, last_left_button: false, last_right_button: false };
    let (_, result) = tick(&active, prev);
    let instrs = plan_emission(&result);
    assert!(instrs.is_empty());
}

#[test]
fn gated_tick_plans_nothing() {
    let active = hold(&[MOVE_RIGHT_KEY, BUTTON_LEFT_KEY]);
    let prev = PointerState { x: 100, y: 200, last_left_button: false, last_right_button: false };
    let (_, result) = tick(&active, prev);
    assert!(plan_emission(&result).is_empty());
}

#[test]
fn button_press_then_release_plan_their_own_frames() {
    let prev = PointerState { x: 5, y: 5, last_left_button: false, last_right_button: false };
    let held = hold(&[MODIFIER_KEY, BUTTON_LEFT_KEY]);
    let (state, result) = tick(&held, prev);
    let instrs = plan_emission(&result);
    assert_eq!(
        instrs,
        vec![
            Instruction::Button { code: BTN_LEFT_CODE, pressed: true },
            Instruction::FrameClose,
        ]
    );
    let released = hold(&[MODIFIER_KEY]);
    let (_, result) = tick(&released, state);
    let instrs = plan_emission(&result);
    assert_eq!(
        instrs,
        vec![
            Instruction::Button { code: BTN_LEFT_CODE, pressed: false },
            Instruction::FrameClose,
        ]
    );
}

#[test]
fn motion_then_left_then_right_in_separate_frames() {
    let active = hold(&[MODIFIER_KEY, MOVE_RIGHT_KEY, BUTTON_LEFT_KEY, BUTTON_RIGHT_KEY]);
    let prev = PointerState { x: 0, y: 0, last_left_button: false, last_right_button: false };
    let (_, result) = tick(&active, prev);
    let instrs = plan_emission(&result);
    assert_eq!(
        instrs,
        vec![
            Instruction::MotionAbsolute { x_norm: normalize(10, SCREEN_WIDTH), y_norm: 0 },
            Instruction::FrameClose,
            Instruction::Button { code: BTN_LEFT_CODE, pressed: true },
            Instruction::FrameClose,
            Instruction::Button { code: BTN_RIGHT_CODE, pressed: true },
            Instruction::FrameClose,
        ]
    );
}

#[test]
fn held_buttons_stop_planning_after_the_first_tick() {
    let active = hold(&[MODIFIER_KEY, BUTTON_LEFT_KEY]);
    let mut state = PointerState { x: 0, y: 0, last_left_button: false, last_right_button: false };
    let (next, _, instrs) = tick_and_plan(&active, state);
    assert_eq!(instrs.len(), 2);
    state = next;
    for _ in 0..10 {
        let (next, _, instrs) = tick_and_plan(&active, state);
        assert!(instrs.is_empty());
        state = next;
    }
}

#[test]
fn combined_step_matches_tick_and_plan_taken_separately() {
    let active = hold(&[MODIFIER_KEY, MOVE_RIGHT_KEY, BUTTON_RIGHT_KEY]);
    let prev = PointerState { x: 1915, y: 1079, last_left_button: false, last_right_button: true };
    let (next, result, instrs) = tick_and_plan(&active, prev);
    let (next2, result2) = tick(&active, prev);
    assert_eq!(next, next2);
    assert_eq!(result, result2);
    assert_eq!(instrs, plan_emission(&result2));
    assert_eq!(next.x, SCREEN_WIDTH);
    assert_eq!(next.y, 1079);
    assert!(result.right.is_none());
}
