use bevy::input::keyboard::KeyCode;
use bevy::input::ButtonInput;
use seaplane::control_mapper::{read_controls, Controls};

fn pressing(keys: &[KeyCode]) -> ButtonInput<KeyCode> {
    let mut keyboard = ButtonInput::<KeyCode>::default();
    for key in keys {
        keyboard.press(*key);
    }
    keyboard
}

#[test]
fn no_key_pressed_holds_no_control() {
    assert_eq!(read_controls(&pressing(&[])), Controls::released());
}

#[test]
fn each_key_holds_its_own_control() {
    let only = |key: KeyCode| read_controls(&pressing(&[key]));
    let released = Controls::released();
    assert_eq!(only(KeyCode::ArrowUp), Controls { throttle_up: true, ..released });
    assert_eq!(only(KeyCode::ArrowDown), Controls { throttle_down: true, ..released });
    assert_eq!(only(KeyCode::KeyA), Controls { roll_left: true, ..released });
    assert_eq!(only(KeyCode::KeyD), Controls { roll_right: true, ..released });
    assert_eq!(only(KeyCode::KeyW), Controls { pitch_up: true, ..released });
    assert_eq!(only(KeyCode::KeyS), Controls { pitch_down: true, ..released });
    assert_eq!(only(KeyCode::KeyQ), Controls { yaw_left: true, ..released });
    assert_eq!(only(KeyCode::KeyE), Controls { yaw_right: true, ..released });
}

#[test]
fn other_keys_hold_no_control() {
    let keyboard = pressing(&[KeyCode::Space, KeyCode::ArrowLeft, KeyCode::KeyZ, KeyCode::Enter]);
    assert_eq!(read_controls(&keyboard), Controls::released());
}

#[test]
fn released_keys_hold_no_control() {
    let mut keyboard = pressing(&[KeyCode::KeyA, KeyCode::KeyW]);
    keyboard.release(KeyCode::KeyA);
    let released = Controls::released();
    assert_eq!(read_controls(&keyboard), Controls { pitch_up: true, ..released });
}

#[test]
fn all_keys_pressed_hold_every_control() {
    let keyboard = pressing(&[
        KeyCode::ArrowUp,
        KeyCode::ArrowDown,
        KeyCode::KeyA,
        KeyCode::KeyD,
        KeyCode::KeyW,
        KeyCode::KeyS,
        KeyCode::KeyQ,
        KeyCode::KeyE,
    ]);
    let controls = read_controls(&keyboard);
    assert_eq!(
        controls,
        Controls {
            throttle_up: true,
            throttle_down: true,
            roll_left: true,
            roll_right: true,
            pitch_up: true,
            pitch_down: true,
            yaw_left: true,
            yaw_right: true,
        }
    );
    // Held together, opposite keys resolve to the negative side.
    let intent = controls.intent();
    assert_eq!((intent.roll, intent.pitch, intent.yaw), (-1, -1, -1));
}
