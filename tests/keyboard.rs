use topdown_controller::movement::{Acceleration, Dir2, Direction, Speed};
use topdown_controller::player::{keyboard_movement, HeldKeys};

fn keys(up: bool, down: bool, left: bool, right: bool) -> HeldKeys {
    HeldKeys { up, down, left, right }
}

#[test]
fn up_doubles_rate() {
    let m = keyboard_movement(keys(true, false, false, false), Speed(30), 10);
    assert_eq!(m.direction, Direction(Some(Dir2::Y)));
    assert_eq!(m.acceleration, Acceleration::Rate(20));
    assert_eq!(m.speed, Speed(30));
}

#[test]
fn key_priority() {
    let m = keyboard_movement(keys(true, true, true, true), Speed(30), 10);
    assert_eq!(m.direction, Direction(Some(Dir2::Y)));
    let m = keyboard_movement(keys(false, true, true, true), Speed(30), 10);
    assert_eq!(m.direction, Direction(Some(Dir2::NegY)));
    assert_eq!(m.acceleration, Acceleration::Rate(10));
    let m = keyboard_movement(keys(false, false, true, true), Speed(30), 10);
    assert_eq!(m.direction, Direction(Some(Dir2::X)));
    let m = keyboard_movement(keys(false, false, true, false), Speed(30), 10);
    assert_eq!(m.direction, Direction(Some(Dir2::NegX)));
}

#[test]
fn no_keys_no_direction() {
    let m = keyboard_movement(keys(false, false, false, false), Speed(30), 10);
    assert_eq!(m.direction, Direction(None));
    assert_eq!(m.acceleration, Acceleration::Rate(10));
}
