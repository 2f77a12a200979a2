//! The discrete half of the camera controller: which moves the held keys ask for.

use vstd::prelude::*;
use crate::key_state::{
    KeyboardInput, KEY_A, KEY_D, KEY_DOWN, KEY_LEFT, KEY_RIGHT, KEY_S, KEY_UP, KEY_W,
};

verus! {

/// The camera moves that are asked for while their keys are held.
#[derive(Clone, Copy, PartialEq, Eq, Structural, Debug)]
pub struct CameraController {
    pub is_forward_pressed: bool,
    pub is_backward_pressed: bool,
    pub is_left_pressed: bool,
    pub is_right_pressed: bool,
}

/// The move that a key stands for.
#[derive(Clone, Copy, PartialEq, Eq, Structural, Debug)]
pub enum CameraMove {
    Forward,
    Backward,
    Left,
    Right,
}

/// The move bound to key `code`: `W`/up dolly in, `S`/down dolly out,
/// `A`/left and `D`/right strafe.
pub open spec fn spec_move_of(code: u32) -> Option<CameraMove> {
    if code == KEY_W || code == KEY_UP {
        Some(CameraMove::Forward)
    } else if code == KEY_S || code == KEY_DOWN {
        Some(CameraMove::Backward)
    } else if code == KEY_A || code == KEY_LEFT {
        Some(CameraMove::Left)
    } else if code == KEY_D || code == KEY_RIGHT {
        Some(CameraMove::Right)
    } else {
        None
    }
}

/// Looks up the move bound to key `code`.
pub fn move_of(code: u32) -> (r: Option<CameraMove>)
    ensures
        r == spec_move_of(code),
{
    if code == KEY_W || code == KEY_UP {
        Some(CameraMove::Forward)
    } else if code == KEY_S || code == KEY_DOWN {
        Some(CameraMove::Backward)
    } else if code == KEY_A || code == KEY_LEFT {
        Some(CameraMove::Left)
    } else if code == KEY_D || code == KEY_RIGHT {
        Some(CameraMove::Right)
    } else {
        None
    }
}

impl CameraController {
    /// The controller while no move is asked for.
    pub open spec fn spec_idle() -> CameraController {
        CameraController {
            is_forward_pressed: false,
            is_backward_pressed: false,
            is_left_pressed: false,
            is_right_pressed: false,
        }
    }

    /// The controller after a key event.
    pub open spec fn spec_after(self, input: KeyboardInput) -> CameraController {
        match input.virtual_keycode {
            None => self,
            Some(code) => match spec_move_of(code) {
                None => self,
                Some(CameraMove::Forward) => CameraController {
                    is_forward_pressed: input.pressed,
                    ..self
                },
                Some(CameraMove::Backward) => CameraController {
                    is_backward_pressed: input.pressed,
                    ..self
                },
                Some(CameraMove::Left) => CameraController { is_left_pressed: input.pressed, ..self },
                Some(CameraMove::Right) => CameraController {
                    is_right_pressed: input.pressed,
                    ..self
                },
            },
        }
    }

    /// Whether a key event concerns the camera.
    pub open spec fn spec_handles(input: KeyboardInput) -> bool {
        input.virtual_keycode is Some && spec_move_of(input.virtual_keycode->0) is Some
    }

    /// Builds the controller with no move asked for.
    pub fn new() -> (r: CameraController)
        ensures
            r == CameraController::spec_idle(),
    {
        CameraController {
            is_forward_pressed: false,
            is_backward_pressed: false,
            is_left_pressed: false,
            is_right_pressed: false,
        }
    }

    /// Takes a key event: a key bound to a move switches that move on or
    /// off. Returns whether the key was bound to a move.
    pub fn process_events(&mut self, input: &KeyboardInput) -> (handled: bool)
        ensures
            *final(self) == old(self).spec_after(*input),
            handled == CameraController::spec_handles(*input),
    {
        let code = match input.virtual_keycode {
            Some(code) => code,
            None => {
                return false;
            },
        };
        match move_of(code) {
            None => false,
            Some(CameraMove::Forward) => {
                self.is_forward_pressed = input.pressed;
                true
            },
            Some(CameraMove::Backward) => {
                self.is_backward_pressed = input.pressed;
                true
            },
            Some(CameraMove::Left) => {
                self.is_left_pressed = input.pressed;
                true
            },
            Some(CameraMove::Right) => {
                self.is_right_pressed = input.pressed;
                true
            },
        }
    }
}

} // verus!
