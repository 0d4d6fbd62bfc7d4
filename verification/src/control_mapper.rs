//! The control mapper: from the held controls to roll, pitch and yaw intents
//! and to the throttle's change of speed.

use crate::constants::{ACCELERATION, MAX_SPEED, MIN_SPEED};
use crate::fixed::{greatest, least, multiply, product, within, LIMIT};
use bevy::input::keyboard::KeyCode;
use bevy::input::ButtonInput;
use std::hash::Hash;
use vstd::prelude::*;

verus! {

/// The keys that the controls are bound to.
#[derive(Clone, Copy, Debug, PartialEq, Eq, Structural)]
pub enum Key {
    ArrowUp,
    ArrowDown,
    KeyA,
    KeyD,
    KeyW,
    KeyS,
    KeyQ,
    KeyE,
}

/// Bevy's `KeyCode`, the code of a physical key, taken as it is.
#[verifier::external_type_specification]
#[verifier::external_body]
pub struct ExKeyCode(KeyCode);

/// Bevy's `ButtonInput`, which holds the buttons that are pressed, taken as
/// it is.
#[verifier::external_type_specification]
#[verifier::external_body]
#[verifier::reject_recursive_types(T)]
pub struct ExButtonInput<T: Copy + Eq + Hash + Send + Sync + 'static>(ButtonInput<T>);

/// Those of the bound keys that a keyboard state holds as pressed.
pub uninterp spec fn pressed_keys(keyboard: ButtonInput<KeyCode>) -> Set<Key>;

/// Calls `ButtonInput::pressed` with the key code of the same name as
/// `key`, which looks the key code up in the set of pressed ones.
///
/// The result tells whether the keyboard state holds the key as pressed.
#[verifier::external_body]
pub(crate) fn is_pressed(keyboard: &ButtonInput<KeyCode>, key: Key) -> (held: bool)
    ensures
        held == pressed_keys(*keyboard).contains(key),
{
    keyboard.pressed(match key {
        Key::ArrowUp => KeyCode::ArrowUp,
        Key::ArrowDown => KeyCode::ArrowDown,
        Key::KeyA => KeyCode::KeyA,
        Key::KeyD => KeyCode::KeyD,
        Key::KeyW => KeyCode::KeyW,
        Key::KeyS => KeyCode::KeyS,
        Key::KeyQ => KeyCode::KeyQ,
        Key::KeyE => KeyCode::KeyE,
    })
}

/// Which of the logical controls are held during a tick.
#[derive(Clone, Copy, Debug, PartialEq, Eq, Structural)]
pub struct Controls {
    pub throttle_up: bool,
    pub throttle_down: bool,
    pub roll_left: bool,
    pub roll_right: bool,
    /// Elevator commanding a climb: pitch intent `-1`.
    pub pitch_up: bool,
    /// Elevator commanding a descent: pitch intent `1`.
    pub pitch_down: bool,
    pub yaw_left: bool,
    pub yaw_right: bool,
}

/// Normalised rotational intents, each `-1`, `0` or `1`.
#[derive(Clone, Copy, Debug, PartialEq, Eq, Structural)]
pub struct Intent {
    pub roll: i8,
    pub pitch: i8,
    pub yaw: i8,
}

/// Intent on one axis. The negative direction is looked at first, so it wins
/// when both controls are held.
pub open spec fn axis(negative: bool, positive: bool) -> int {
    if negative {
        -1
    } else if positive {
        1
    } else {
        0
    }
}

/// Speed after the throttle has acted for `dt` on `speed`. A held increase
/// adds `ACCELERATION * dt` and caps at [`MAX_SPEED`]; a held decrease then
/// takes the same amount away and stops at [`MIN_SPEED`].
pub open spec fn throttled(speed: int, up: bool, down: bool, dt: int) -> int {
    let raised = if up {
        least(speed + product(ACCELERATION as int, dt), MAX_SPEED as int)
    } else {
        speed
    };
    if down {
        greatest(raised - product(ACCELERATION as int, dt), MIN_SPEED as int)
    } else {
        raised
    }
}

impl Intent {
    /// Each intent is `-1`, `0` or `1`.
    pub open spec fn well_formed(&self) -> bool {
        &&& -1 <= self.roll <= 1
        &&& -1 <= self.pitch <= 1
        &&& -1 <= self.yaw <= 1
    }
}

impl Controls {
    /// No control held.
    pub open spec fn idle(&self) -> bool {
        &&& !self.throttle_up
        &&& !self.throttle_down
        &&& !self.roll_left
        &&& !self.roll_right
        &&& !self.pitch_up
        &&& !self.pitch_down
        &&& !self.yaw_left
        &&& !self.yaw_right
    }

    /// The state of the controls when none is held.
    pub fn released() -> (controls: Controls)
        ensures
            controls.idle(),
    {
        Controls {
            throttle_up: false,
            throttle_down: false,
            roll_left: false,
            roll_right: false,
            pitch_up: false,
            pitch_down: false,
            yaw_left: false,
            yaw_right: false,
        }
    }

    /// Maps the held controls to roll, pitch and yaw intents.
    pub fn intent(&self) -> (intent: Intent)
        ensures
            intent.roll == axis(self.roll_left, self.roll_right),
            intent.pitch == axis(self.pitch_up, self.pitch_down),
            intent.yaw == axis(self.yaw_left, self.yaw_right),
            intent.well_formed(),
            self.idle() ==> intent.roll == 0 && intent.pitch == 0 && intent.yaw == 0,
    {
        Intent {
            roll: read_axis(self.roll_left, self.roll_right),
            pitch: read_axis(self.pitch_up, self.pitch_down),
            yaw: read_axis(self.yaw_left, self.yaw_right),
        }
    }
}

/// The controls that a set of pressed keys holds: the arrows for the
/// throttle, `A` and `D` for the roll, `W` and `S` for the pitch, `Q` and `E`
/// for the yaw.
pub open spec fn controls_of(pressed: Set<Key>) -> Controls {
    Controls {
        throttle_up: pressed.contains(Key::ArrowUp),
        throttle_down: pressed.contains(Key::ArrowDown),
        roll_left: pressed.contains(Key::KeyA),
        roll_right: pressed.contains(Key::KeyD),
        pitch_up: pressed.contains(Key::KeyW),
        pitch_down: pressed.contains(Key::KeyS),
        yaw_left: pressed.contains(Key::KeyQ),
        yaw_right: pressed.contains(Key::KeyE),
    }
}

/// Reads which controls are held from the state of the keyboard.
pub fn read_controls(keyboard: &ButtonInput<KeyCode>) -> (controls: Controls)
    ensures
        controls == controls_of(pressed_keys(*keyboard)),
{
    Controls {
        throttle_up: is_pressed(keyboard, Key::ArrowUp),
        throttle_down: is_pressed(keyboard, Key::ArrowDown),
        roll_left: is_pressed(keyboard, Key::KeyA),
        roll_right: is_pressed(keyboard, Key::KeyD),
        pitch_up: is_pressed(keyboard, Key::KeyW),
        pitch_down: is_pressed(keyboard, Key::KeyS),
        yaw_left: is_pressed(keyboard, Key::KeyQ),
        yaw_right: is_pressed(keyboard, Key::KeyE),
    }
}

/// Intent on one axis from its two controls.
pub fn read_axis(negative: bool, positive: bool) -> (value: i8)
    ensures
        value == axis(negative, positive),
{
    if negative {
        -1
    } else if positive {
        1
    } else {
        0
    }
}

/// Applies the throttle for `dt` microseconds.
pub fn apply_throttle(speed: i64, up: bool, down: bool, dt: u32) -> (next: i64)
    requires
        within(speed as int, LIMIT as int),
    ensures
        next == throttled(speed as int, up, down, dt as int),
        MIN_SPEED <= speed <= MAX_SPEED ==> MIN_SPEED <= next <= MAX_SPEED,
        0 <= speed <= MAX_SPEED ==> 0 <= next <= MAX_SPEED,
        !up && !down ==> next == speed,
        up && !down && speed <= MAX_SPEED ==> speed <= next,
{
    let step: i64 = multiply(ACCELERATION, dt as i64);
    let mut next: i64 = speed;
    if up {
        next = next + step;
        if next > MAX_SPEED {
            next = MAX_SPEED;
        }
    }
    if down {
        next = next - step;
        if next < MIN_SPEED {
            next = MIN_SPEED;
        }
    }
    next
}

} // verus!
