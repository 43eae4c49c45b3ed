//! What input asks of the camera.
//!
//! The camera itself is a matter of vectors and matrices. Which way it is to
//! move and whether it is to turn is decided here, from the keys and buttons
//! that are held.

use vstd::prelude::*;

verus! {

/// The keys and buttons that the camera listens to.
#[derive(Clone, Copy, Debug, PartialEq, Eq, Structural)]
pub struct InputState {
    pub held_shift: bool,
    pub held_control: bool,
    pub key_w: bool,
    pub key_s: bool,
    pub key_a: bool,
    pub key_d: bool,
    pub key_e: bool,
    pub key_f: bool,
    /// The secondary mouse button went down since the last update.
    pub mouse_pressed_right: bool,
    /// The secondary mouse button is down.
    pub mouse_held_right: bool,
}

/// An axis of the camera's own frame.
#[derive(Clone, Copy, Debug, PartialEq, Eq, Structural)]
pub enum Axis {
    Forward,
    Right,
    Up,
}

/// One move of the camera along one of its axes, by the current speed.
#[derive(Clone, Copy, Debug, PartialEq, Eq, Structural)]
pub struct Step {
    pub axis: Axis,
    /// Against the axis rather than along it.
    pub backwards: bool,
}

/// Whether the camera turns, and what becomes of its up vector if it does.
#[derive(Clone, Copy, Debug, PartialEq, Eq, Structural)]
pub enum Rotation {
    /// The camera does not turn.
    Still,
    /// The view direction follows the mouse and the up vector is set to the
    /// world's up axis, so that the camera cannot roll.
    LevelHorizon,
    /// View direction and up vector both follow the mouse.
    FreeRoll,
}

/// What the camera is to do in response to input.
#[derive(Debug, PartialEq, Eq)]
pub struct CameraMotion {
    /// Distance of one step.
    pub speed: u8,
    /// The steps to take, in this order.
    pub steps: Vec<Step>,
    /// Remember where the mouse is: a drag begins.
    pub begin_drag: bool,
    pub rotation: Rotation,
}

/// The step that a key asks for, if the key is held.
pub open spec fn key_step(held: bool, axis: Axis, backwards: bool) -> Seq<Step> {
    if held {
        seq![Step { axis, backwards }]
    } else {
        seq![]
    }
}

/// The steps that the held keys ask for: W and S along and against the view
/// direction, D and A to the right and to the left, F and E up and down.
pub open spec fn steps_of(input: InputState) -> Seq<Step> {
    key_step(input.key_w, Axis::Forward, false) + key_step(input.key_s, Axis::Forward, true) + key_step(
        input.key_a,
        Axis::Right,
        true,
    ) + key_step(input.key_d, Axis::Right, false) + key_step(input.key_e, Axis::Up, true) + key_step(
        input.key_f,
        Axis::Up,
        false,
    )
}

/// The rotation that the mouse asks for: none unless the secondary button is
/// held, and one that keeps the horizon level unless control is held too.
pub open spec fn rotation_of(input: InputState) -> Rotation {
    if !input.mouse_held_right {
        Rotation::Still
    } else if input.held_control {
        Rotation::FreeRoll
    } else {
        Rotation::LevelHorizon
    }
}

/// Something that reacts to the camera's input.
pub trait CameraInputLogic {
    fn handle_event(&mut self, input: &InputState);
}

impl CameraInputLogic for CameraMotion {
    /// Replaces the motion by the one that `input` asks for.
    fn handle_event(&mut self, input: &InputState)
        ensures
            final(self).speed == if input.held_shift {
                5u8
            } else {
                1u8
            },
            final(self).steps@ == steps_of(*input),
            final(self).begin_drag == input.mouse_pressed_right,
            final(self).rotation == rotation_of(*input),
    {
        let mut steps: Vec<Step> = Vec::new();
        if input.key_w {
            steps.push(Step { axis: Axis::Forward, backwards: false });
        }
        if input.key_s {
            steps.push(Step { axis: Axis::Forward, backwards: true });
        }
        if input.key_a {
            steps.push(Step { axis: Axis::Right, backwards: true });
        }
        if input.key_d {
            steps.push(Step { axis: Axis::Right, backwards: false });
        }
        if input.key_e {
            steps.push(Step { axis: Axis::Up, backwards: true });
        }
        if input.key_f {
            steps.push(Step { axis: Axis::Up, backwards: false });
        }
        self.speed = if input.held_shift {
            5
        } else {
            1
        };
        self.steps = steps;
        self.begin_drag = input.mouse_pressed_right;
        self.rotation = if !input.mouse_held_right {
            Rotation::Still
        } else if input.held_control {
            Rotation::FreeRoll
        } else {
            Rotation::LevelHorizon
        };
    }
}

impl CameraMotion {
    /// No motion at all.
    pub fn new() -> (motion: CameraMotion)
        ensures
            motion.speed == 1,
            motion.steps@ == Seq::<Step>::empty(),
            !motion.begin_drag,
            motion.rotation == Rotation::Still,
    {
        CameraMotion { speed: 1, steps: Vec::new(), begin_drag: false, rotation: Rotation::Still }
    }
}

/// While control is not held, every turn of the camera is one that keeps the
/// horizon level.
pub proof fn lemma_roll_locked_without_control(input: InputState)
    requires
        input.mouse_held_right,
        !input.held_control,
    ensures
        rotation_of(input) == Rotation::LevelHorizon,
{
}

} // verus!
