//! The input snapshot of a frame, and how one is read from the engine's
//! keyboard state.

use bevy::input::keyboard::KeyCode;
use bevy::input::Input;
use std::hash::Hash;
use vstd::prelude::*;

verus! {

/// One of the four direction keys.
#[derive(Clone, Copy, Debug, PartialEq, Eq)]
pub enum DirectionKey {
    Left,
    Right,
    Up,
    Down,
}

/// The direction keys that are held during one frame.
#[derive(Clone, Copy, Debug, PartialEq, Eq)]
pub struct InputSnapshot {
    pub left: bool,
    pub right: bool,
    pub up: bool,
    pub down: bool,
}

/// bevy's `Input`, the engine's record of which buttons are pressed. Nothing
/// inside it is visible here; it is only handed to `key_pressed`.
#[verifier::external_type_specification]
#[verifier::external_body]
#[verifier::reject_recursive_types(T)]
pub struct ExInput<T: Copy + Eq + Hash + Send + Sync + 'static>(Input<T>);

/// bevy's `KeyCode`, the engine's name for a key of the keyboard.
#[verifier::external_type_specification]
#[verifier::external_body]
pub struct ExKeyCode(KeyCode);

/// The direction keys that the engine's keyboard state records as pressed:
/// those with a press that no release has followed. Nothing is assumed
/// about which keys these are.
pub uninterp spec fn held_keys(keys: Input<KeyCode>) -> Set<DirectionKey>;

/// Asks the engine's keyboard state whether a direction key is pressed.
///
/// Calls bevy's `Input::pressed` with the arrow key that `key` stands for.
/// That method looks the key up in the set of pressed keys and changes
/// nothing. The contract is not proved: it says that the answer is
/// membership of `key` in `held_keys`, which is a name for that set and
/// nothing more.
#[verifier::external_body]
fn key_pressed(keys: &Input<KeyCode>, key: DirectionKey) -> (held: bool)
    ensures
        held == held_keys(*keys).contains(key),
{
    keys.pressed(match key {
        DirectionKey::Left => KeyCode::Left,
        DirectionKey::Right => KeyCode::Right,
        DirectionKey::Up => KeyCode::Up,
        DirectionKey::Down => KeyCode::Down,
    })
}

impl InputSnapshot {
    /// The snapshot of a frame in which no direction key is held.
    pub fn idle() -> (snapshot: InputSnapshot)
        ensures
            snapshot == (InputSnapshot { left: false, right: false, up: false, down: false }),
    {
        InputSnapshot { left: false, right: false, up: false, down: false }
    }

    /// Reads the four direction keys from the engine's keyboard state.
    pub fn read(keys: &Input<KeyCode>) -> (snapshot: InputSnapshot)
        ensures
            snapshot == InputSnapshot::of_keys(held_keys(*keys)),
    {
        InputSnapshot {
            left: key_pressed(keys, DirectionKey::Left),
            right: key_pressed(keys, DirectionKey::Right),
            up: key_pressed(keys, DirectionKey::Up),
            down: key_pressed(keys, DirectionKey::Down),
        }
    }

    /// The snapshot in which exactly the keys of `held` are held.
    pub open spec fn of_keys(held: Set<DirectionKey>) -> InputSnapshot {
        InputSnapshot {
            left: held.contains(DirectionKey::Left),
            right: held.contains(DirectionKey::Right),
            up: held.contains(DirectionKey::Up),
            down: held.contains(DirectionKey::Down),
        }
    }
}

} // verus!
