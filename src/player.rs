use vstd::prelude::*;

use crate::movement::{Acceleration, Dir2, Direction, MovementIntent, Speed};

verus! {

/// How many times the base rate applies while moving up.
pub const UPWARD_RATE_MULTIPLE: i64 = 2;

/// The movement keys held down during one frame.
#[derive(Clone, Copy, Debug, PartialEq, Eq, Structural)]
pub struct HeldKeys {
    pub up: bool,
    pub down: bool,
    pub left: bool,
    pub right: bool,
}

/// The direction the held keys ask for: up wins over down, down over right,
/// right over left; none when no movement key is held.
pub open spec fn key_direction(keys: HeldKeys) -> Option<Dir2> {
    if keys.up {
        Some(Dir2::Y)
    } else if keys.down {
        Some(Dir2::NegY)
    } else if keys.right {
        Some(Dir2::X)
    } else if keys.left {
        Some(Dir2::NegX)
    } else {
        None
    }
}

/// The factor on the base rate: larger while moving up, one otherwise.
pub open spec fn key_rate_multiple(keys: HeldKeys) -> int {
    if keys.up {
        UPWARD_RATE_MULTIPLE as int
    } else {
        1
    }
}

/// The intent that the held keys ask for, for an entity with the given speed
/// cap and base acceleration rate.
pub fn keyboard_movement(keys: HeldKeys, speed: Speed, base_rate: i64) -> (r: MovementIntent)
    requires
        i64::MIN <= UPWARD_RATE_MULTIPLE * base_rate <= i64::MAX,
    ensures
        r.direction == Direction(key_direction(keys)),
        r.speed == speed,
        r.acceleration == Acceleration::Rate((base_rate * key_rate_multiple(keys)) as i64),
{
    let (multiple, direction): (i64, Option<Dir2>) = if keys.up {
        (UPWARD_RATE_MULTIPLE, Some(Dir2::Y))
    } else if keys.down {
        (1, Some(Dir2::NegY))
    } else if keys.right {
        (1, Some(Dir2::X))
    } else if keys.left {
        (1, Some(Dir2::NegX))
    } else {
        (1, None)
    };
    MovementIntent {
        direction: Direction(direction),
        speed,
        acceleration: Acceleration::Rate(base_rate * multiple),
    }
}

} // verus!
