use vstd::prelude::*;
use crate::grab::{cursor_grab, grabbed, scale_of, toggled, Window};
use crate::look::{looked, player_look, InputState, MotionDelta, MAX_NEW_EVENTS, YAW_LIMIT};
use crate::movement::{player_move, steer_of, KeysBindings, Steer};

verus! {

/// Mouse sensitivity and movement speed.
#[derive(Clone, Copy, Debug, PartialEq, Eq, Structural)]
pub struct MovementSettings {
    /// Degrees turned per device count and per pixel of the window's smaller
    /// side, in units of 1e-8.
    pub sensitivity: u32,
    /// Distance moved per second, in thousandths of a unit.
    pub speed: u32,
}

impl Default for MovementSettings {
    /// A sensitivity of 0.00012 and a speed of 12 units per second.
    fn default() -> (s: Self)
        ensures
            s == (MovementSettings { sensitivity: 12_000, speed: 12_000 }),
    {
        MovementSettings { sensitivity: 12_000, speed: 12_000 }
    }
}

/// What a frame asks of the camera.
#[derive(Clone, Copy, Debug, PartialEq, Eq, Structural)]
pub struct FrameOutput {
    /// Whether there was a window; without one the frame does nothing.
    pub window_found: bool,
    /// Where to move the camera.
    pub steer: Steer,
    /// Whether to rewrite the camera's rotation from the state's pitch and yaw.
    pub rotate: bool,
}

/// One frame: reads whether the cursor is grabbed, resolves the held keys into
/// a movement, reads the new motion events of `log` into the orientation, and
/// toggles the cursor if the toggle key was pressed at this frame. The toggle
/// takes effect from the next frame on.
pub fn frame(
    state: &mut InputState,
    window: &mut Option<Window>,
    held: &Vec<u32>,
    toggle_pressed: bool,
    log: &Vec<MotionDelta>,
    settings: &MovementSettings,
    bindings: &KeysBindings,
) -> (out: FrameOutput)
    requires
        old(state).wf(),
        old(state).reader_motion <= log.len(),
        log.len() - old(state).reader_motion <= MAX_NEW_EVENTS,
        -YAW_LIMIT <= old(state).yaw <= YAW_LIMIT,
    ensures
        final(state).wf(),
        final(state).reader_motion <= log.len(),
        out.window_found == old(window).is_some(),
        match *old(window) {
            None => {
                &&& out.steer@ == (0int, 0int, 0int)
                &&& !out.rotate
                &&& *final(state) == *old(state)
                &&& final(window).is_none()
            },
            Some(w) => {
                &&& out.steer@ == (if grabbed(w) {
                    steer_of(*bindings, held@)
                } else {
                    (0int, 0int, 0int)
                })
                &&& final(state).reader_motion == log.len()
                &&& final(state).orientation() == looked(
                    old(state).orientation(),
                    log@.subrange(old(state).reader_motion as int, log.len() as int),
                    grabbed(w),
                    settings.sensitivity as nat,
                    scale_of(w),
                )
                &&& out.rotate == (old(state).reader_motion < log.len())
                &&& *final(window) == Some(
                    if toggle_pressed {
                        toggled(w)
                    } else {
                        w
                    },
                )
            },
        },
{
    let mut steer = Steer { forward: 0, right: 0, up: 0 };
    let mut rotate = false;
    match window {
        Some(w) => {
            let grab = w.is_grabbed();
            steer = player_move(grab, held, bindings);
            rotate = player_look(state, log, grab, settings.sensitivity, w.window_scale());
        },
        None => {},
    }
    let found = cursor_grab(window, toggle_pressed);
    FrameOutput { window_found: found, steer, rotate }
}

} // verus!
