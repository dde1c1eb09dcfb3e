use vstd::prelude::*;

use crate::frame::InputEvent;

verus! {

/// The keys that the program reacts to; the window system's key codes are
/// mapped onto these, every other key onto `Other`.
#[derive(Clone, Copy, Debug, PartialEq, Eq, Structural)]
pub enum Key {
    Escape,
    KeyN,
    Space,
    KeyW,
    KeyA,
    KeyS,
    KeyD,
    ArrowUp,
    ArrowLeft,
    ArrowDown,
    ArrowRight,
    Other,
}

/// The directions in which the camera moves while their key is held.
#[derive(Clone, Copy, Debug, PartialEq, Eq, Structural)]
pub struct MovementKeys {
    pub forward: bool,
    pub backward: bool,
    pub left: bool,
    pub right: bool,
}

/// The keys that move the camera: W, A, S, D and the arrows.
pub open spec fn is_movement_key(key: Key) -> bool {
    matches!(
        key,
        Key::KeyW | Key::ArrowUp | Key::KeyS | Key::ArrowDown | Key::KeyA | Key::ArrowLeft
            | Key::KeyD | Key::ArrowRight
    )
}

/// The held directions after `key` is pressed or released.
pub open spec fn movement_after(m: MovementKeys, key: Key, pressed: bool) -> MovementKeys {
    match key {
        Key::KeyW | Key::ArrowUp => MovementKeys { forward: pressed, ..m },
        Key::KeyS | Key::ArrowDown => MovementKeys { backward: pressed, ..m },
        Key::KeyA | Key::ArrowLeft => MovementKeys { left: pressed, ..m },
        Key::KeyD | Key::ArrowRight => MovementKeys { right: pressed, ..m },
        _ => m,
    }
}

impl MovementKeys {
    /// No direction held.
    pub fn new() -> (r: MovementKeys)
        ensures
            !r.forward && !r.backward && !r.left && !r.right,
    {
        MovementKeys { forward: false, backward: false, left: false, right: false }
    }

    /// Records a movement key and says whether `key` was one; any other key
    /// leaves the directions as they were.
    pub fn process_keyboard(&mut self, key: Key, pressed: bool) -> (handled: bool)
        ensures
            handled == is_movement_key(key),
            *final(self) == movement_after(*old(self), key, pressed),
    {
        match key {
            Key::KeyW | Key::ArrowUp => {
                self.forward = pressed;
                true
            },
            Key::KeyS | Key::ArrowDown => {
                self.backward = pressed;
                true
            },
            Key::KeyA | Key::ArrowLeft => {
                self.left = pressed;
                true
            },
            Key::KeyD | Key::ArrowRight => {
                self.right = pressed;
                true
            },
            _ => false,
        }
    }
}

/// The frame-loop event of a key that is not a movement key: a press of
/// Escape exits, of N takes a single step, of Space toggles running.
pub open spec fn command_of(key: Key, pressed: bool) -> Option<InputEvent> {
    if !pressed {
        None
    } else {
        match key {
            Key::Escape => Some(InputEvent::Exit),
            Key::KeyN => Some(InputEvent::SingleStep),
            Key::Space => Some(InputEvent::ToggleRun),
            _ => None,
        }
    }
}

pub fn command_for_key(key: Key, pressed: bool) -> (r: Option<InputEvent>)
    ensures
        r == command_of(key, pressed),
{
    if !pressed {
        return None;
    }
    match key {
        Key::Escape => Some(InputEvent::Exit),
        Key::KeyN => Some(InputEvent::SingleStep),
        Key::Space => Some(InputEvent::ToggleRun),
        _ => None,
    }
}

} // verus!
