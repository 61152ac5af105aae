//! Camera state and the camera controller's input decisions.
//!
//! The camera record holds plain values: fixed-point positions in
//! thousandths, the field of view and clip planes in thousandths, and the
//! aspect ratio as the exact width/height pair.  The view-projection
//! matrix itself is floating-point work done by an outside math
//! collaborator; this module owns what that work is fed with, and the
//! controller's mapping from key events to movement flags.

use vstd::prelude::*;

use crate::model::Vec3I;

verus! {

/// The camera's parameters, in plain values: positions in thousandths of
/// a unit, angles and clip distances in thousandths, aspect ratio as an
/// exact pair.
#[derive(Clone, Copy, PartialEq, Eq, Structural, Debug)]
pub struct Camera {
    pub eye: Vec3I,
    pub target: Vec3I,
    pub up: Vec3I,
    pub aspect_num: u32,
    pub aspect_den: u32,
    pub fov_y_milli_deg: u32,
    pub z_near_milli: u32,
    pub z_far_milli: u32,
}

/// The keys the controller reads.
#[derive(Clone, Copy, PartialEq, Eq, Structural, Debug)]
pub enum KeyCode {
    Space,
    Control,
    CharW,
    CharS,
    CharA,
    CharD,
    Other,
}

/// One window input, reduced to the plain values the controller decides
/// on.
#[derive(Clone, Copy, PartialEq, Eq, Structural, Debug)]
pub enum WindowInput {
    Key { key: KeyCode, pressed: bool },
    Other,
}

/// Tracks which movement keys are held; the movement itself is applied by
/// the outside math collaborator each frame.
#[derive(Clone, Copy, PartialEq, Eq, Structural, Debug)]
pub struct CameraController {
    pub speed_milli: u32,
    pub up_pressed: bool,
    pub down_pressed: bool,
    pub forward_pressed: bool,
    pub backward_pressed: bool,
    pub left_pressed: bool,
    pub right_pressed: bool,
}

/// Whether the controller recognises an input.
pub open spec fn input_recognised(event: WindowInput) -> bool {
    match event {
        WindowInput::Key { key, .. } => key != KeyCode::Other,
        WindowInput::Other => false,
    }
}

/// The new state of the flag that tracks `key`, after `event`, given its
/// previous state.
pub open spec fn key_state(event: WindowInput, key: KeyCode, prev: bool) -> bool {
    match event {
        WindowInput::Key { key: k, pressed } => if k == key {
            pressed
        } else {
            prev
        },
        WindowInput::Other => prev,
    }
}

impl CameraController {
    pub fn new(speed_milli: u32) -> (c: CameraController)
        ensures
            c.speed_milli == speed_milli,
            !c.up_pressed,
            !c.down_pressed,
            !c.forward_pressed,
            !c.backward_pressed,
            !c.left_pressed,
            !c.right_pressed,
    {
        CameraController {
            speed_milli,
            up_pressed: false,
            down_pressed: false,
            forward_pressed: false,
            backward_pressed: false,
            left_pressed: false,
            right_pressed: false,
        }
    }

    /// Folds one input into the held-key flags.  Returns whether the
    /// input was recognised; an unrecognised input changes nothing.
    pub fn process_inputs(&mut self, event: &WindowInput) -> (handled: bool)
        ensures
            handled == input_recognised(*event),
            final(self).speed_milli == old(self).speed_milli,
            final(self).up_pressed == key_state(*event, KeyCode::Space, old(self).up_pressed),
            final(self).down_pressed == key_state(*event, KeyCode::Control, old(self).down_pressed),
            final(self).forward_pressed == key_state(
                *event,
                KeyCode::CharW,
                old(self).forward_pressed,
            ),
            final(self).backward_pressed == key_state(
                *event,
                KeyCode::CharS,
                old(self).backward_pressed,
            ),
            final(self).left_pressed == key_state(*event, KeyCode::CharA, old(self).left_pressed),
            final(self).right_pressed == key_state(*event, KeyCode::CharD, old(self).right_pressed),
    {
        match event {
            WindowInput::Key { key, pressed } => {
                let is_pressed = *pressed;
                match key {
                    KeyCode::Space => {
                        self.up_pressed = is_pressed;
                        true
                    },
                    KeyCode::Control => {
                        self.down_pressed = is_pressed;
                        true
                    },
                    KeyCode::CharW => {
                        self.forward_pressed = is_pressed;
                        true
                    },
                    KeyCode::CharS => {
                        self.backward_pressed = is_pressed;
                        true
                    },
                    KeyCode::CharA => {
                        self.left_pressed = is_pressed;
                        true
                    },
                    KeyCode::CharD => {
                        self.right_pressed = is_pressed;
                        true
                    },
                    KeyCode::Other => false,
                }
            },
            WindowInput::Other => false,
        }
    }
}

} // verus!
