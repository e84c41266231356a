//! The output emitter: turns the outcome of a tick into the exact sequence
//! of sink instructions, grouped one frame per logical event, with motion
//! first and the left button before the right.

use vstd::arithmetic::div_mod::lemma_div_is_ordered;
use vstd::arithmetic::div_mod::lemma_fundamental_div_mod_converse;
use vstd::prelude::*;

use crate::config::BTN_LEFT_CODE;
use crate::config::BTN_RIGHT_CODE;
use crate::config::NORM_MAX;
use crate::config::SCREEN_HEIGHT;
use crate::config::SCREEN_WIDTH;
use crate::engine::spec_tick_result;
use crate::engine::spec_tick_state;
use crate::engine::tick;
use crate::engine::ButtonAction;
use crate::engine::PointerState;
use crate::engine::TickResult;
use crate::keys::ActiveKeySet;

verus! {

/// One instruction for the virtual-pointer sink. Instructions take effect
/// only once the frame they belong to is closed.
#[derive(Clone, Copy, Debug, PartialEq, Eq, Structural)]
pub enum Instruction {
    /// Absolute motion, each axis normalized to `[0, NORM_MAX]`.
    MotionAbsolute { x_norm: u32, y_norm: u32 },
    /// A button press (`pressed` true) or release (`pressed` false).
    Button { code: u32, pressed: bool },
    /// Closes the current frame, making the instructions before it effective.
    FrameClose,
}

/// A screen coordinate scaled to the sink's fixed-point range: the nearest
/// integer to `v * NORM_MAX / hi`, with ties rounded up.
pub open spec fn spec_normalize(v: int, hi: int) -> int {
    (v * NORM_MAX + hi / 2) / hi
}

/// The instructions one button transition contributes: the button change and
/// the close of its own frame.
pub open spec fn spec_button_instructions(t: Option<ButtonAction>, code: u32) -> Seq<Instruction> {
    match t {
        Some(a) => seq![
            Instruction::Button { code, pressed: a == ButtonAction::Press },
            Instruction::FrameClose,
        ],
        None => Seq::empty(),
    }
}

/// The full instruction sequence a tick result demands: the motion event, if
/// any, in a frame of its own, then the left button transition, then the
/// right, each in its own frame.
pub open spec fn spec_emission(r: TickResult) -> Seq<Instruction> {
    (if r.motion {
        seq![
            Instruction::MotionAbsolute {
                x_norm: spec_normalize(r.x as int, SCREEN_WIDTH as int) as u32,
                y_norm: spec_normalize(r.y as int, SCREEN_HEIGHT as int) as u32,
            },
            Instruction::FrameClose,
        ]
    } else {
        Seq::empty()
    }) + spec_button_instructions(r.left, BTN_LEFT_CODE) + spec_button_instructions(
        r.right,
        BTN_RIGHT_CODE,
    )
}

/// Scale a coordinate in `[0, hi]` to the sink's `[0, NORM_MAX]` range.
pub fn normalize(v: u32, hi: u32) -> (r: u32)
    requires
        0 < hi <= NORM_MAX,
        v <= hi,
    ensures
        r == spec_normalize(v as int, hi as int),
        r <= NORM_MAX,
{
    proof {
        assert((v as int) * (NORM_MAX as int) <= (hi as int) * (NORM_MAX as int))
            by (nonlinear_arith)
            requires
                0 <= v as int <= hi as int,
        ;
        assert((hi as int) * (NORM_MAX as int) <= 65535 * 65535) by (nonlinear_arith)
            requires
                0 <= hi as int <= 65535,
        ;
    }
    let num: u64 = (v as u64) * (NORM_MAX as u64) + (hi as u64) / 2;
    let q: u64 = num / (hi as u64);
    proof {
        let hii = hi as int;
        let top = hii * (NORM_MAX as int) + hii / 2;
        assert(num <= top);
        assert(0 <= hii / 2 < hii);
        lemma_fundamental_div_mod_converse(top, hii, NORM_MAX as int, hii / 2);
        lemma_div_is_ordered(num as int, top, hii);
    }
    q as u32
}

/// Plan the instruction sequence for one tick result.
pub fn plan_emission(result: &TickResult) -> (instrs: Vec<Instruction>)
    requires
        result.x <= SCREEN_WIDTH,
        result.y <= SCREEN_HEIGHT,
    ensures
        instrs@ == spec_emission(*result),
{
    let mut out: Vec<Instruction> = Vec::new();
    if result.motion {
        let x_norm = normalize(result.x, SCREEN_WIDTH);
        let y_norm = normalize(result.y, SCREEN_HEIGHT);
        out.push(Instruction::MotionAbsolute { x_norm, y_norm });
        out.push(Instruction::FrameClose);
    }
    push_button_instructions(&mut out, result.left, BTN_LEFT_CODE);
    push_button_instructions(&mut out, result.right, BTN_RIGHT_CODE);
    proof {
        assert(out@ =~= spec_emission(*result));
    }
    out
}

/// Append the instructions of one button transition, if there is one.
fn push_button_instructions(out: &mut Vec<Instruction>, t: Option<ButtonAction>, code: u32)
    ensures
        final(out)@ == old(out)@ + spec_button_instructions(t, code),
{
    match t {
        Some(a) => {
            let pressed = match a {
                ButtonAction::Press => true,
                ButtonAction::Release => false,
            };
            out.push(Instruction::Button { code, pressed });
            out.push(Instruction::FrameClose);
            proof {
                assert(out@ =~= old(out)@ + spec_button_instructions(t, code));
            }
        },
        None => {
            proof {
                assert(out@ =~= old(out)@ + spec_button_instructions(t, code));
            }
        },
    }
}

/// One full engine step, as the tick loop runs it: derive the tick outcome
/// from the held keys and plan the instructions it demands. The caller sends
/// the instructions to the sink, in order, when a pointer object is bound,
/// and discards them otherwise.
pub fn tick_and_plan(active: &ActiveKeySet, prev: PointerState) -> (r: (
    PointerState,
    TickResult,
    Vec<Instruction>,
))
    requires
        prev.wf(),
    ensures
        r.0.wf(),
        r.0 == spec_tick_state(active@, prev),
        r.1 == spec_tick_result(active@, prev),
        r.2@ == spec_emission(spec_tick_result(active@, prev)),
{
    let (next, result) = tick(active, prev);
    let instrs = plan_emission(&result);
    (next, result, instrs)
}

} // verus!
