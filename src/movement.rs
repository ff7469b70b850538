use vstd::prelude::*;

use crate::vector::{Vector2, fits_i64, saturate, saturating_i64};

verus! {

/// Largest magnitude of `delta * rate` for a `u32` delta and an `i64` rate.
const MAX_CHANGE: i128 = 0x8000_0000_0000_0000_0000_0000;

/// One of the four unit vectors with integer components.
#[derive(Clone, Copy, Debug, PartialEq, Eq, Structural)]
pub enum Dir2 {
    X,
    NegX,
    Y,
    NegY,
}

impl Dir2 {
    /// The unit vector this direction stands for.
    pub open spec fn unit(self) -> (int, int) {
        match self {
            Dir2::X => (1, 0),
            Dir2::NegX => (-1, 0),
            Dir2::Y => (0, 1),
            Dir2::NegY => (0, -1),
        }
    }

    pub fn as_vec2(&self) -> (r: Vector2)
        ensures
            r@ == self.unit(),
    {
        match self {
            Dir2::X => Vector2 { x: 1, y: 0 },
            Dir2::NegX => Vector2 { x: -1, y: 0 },
            Dir2::Y => Vector2 { x: 0, y: 1 },
            Dir2::NegY => Vector2 { x: 0, y: -1 },
        }
    }
}

/// The requested direction of travel, if any.
#[derive(Clone, Copy, Debug, PartialEq, Eq, Structural)]
pub struct Direction(pub Option<Dir2>);

impl Direction {
    /// The direction as a vector: its unit vector, or zero when absent.
    pub open spec fn unit(self) -> (int, int) {
        match self.0 {
            Some(d) => d.unit(),
            None => (0, 0),
        }
    }

    pub fn as_vec2(&self) -> (r: Vector2)
        ensures
            r@ == self.unit(),
    {
        match &self.0 {
            Some(d) => d.as_vec2(),
            None => Vector2::zero(),
        }
    }
}

/// The speed cap of the gradual rule, and the speed of a snap.
#[derive(Clone, Copy, Debug, PartialEq, Eq, Structural)]
pub struct Speed(pub u64);

/// How an intent changes velocity.
#[derive(Clone, Copy, Debug, PartialEq, Eq, Structural)]
pub enum Acceleration {
    /// Set velocity to the direction times the speed at once.
    Snap,
    /// Set velocity to zero at once.
    Stop,
    /// Change velocity gradually, by this many velocity units per time unit.
    Rate(i64),
}

/// A requested movement: staged on a controller and consumed by its next step.
#[derive(Clone, Copy, Debug, PartialEq, Eq, Structural)]
pub struct MovementIntent {
    pub direction: Direction,
    pub speed: Speed,
    pub acceleration: Acceleration,
}

/// One axis of a velocity moved toward zero by `change`: a negative component
/// grows by it, any other component shrinks by it (no clamp at zero).
pub open spec fn toward_zero(c: int, change: int) -> int {
    if c < 0 {
        c + change
    } else {
        c - change
    }
}

impl MovementIntent {
    /// Whether the gradual rule slows `v` down rather than pushing it along the
    /// direction: it is moving with no direction requested, or it is at or
    /// above the speed cap.
    pub open spec fn decelerates(self, v: Vector2) -> bool {
        ||| self.direction.unit() == (0int, 0int) && v.len_sqr() > 0
        ||| v.len_sqr() >= self.speed.0 * self.speed.0
    }

    /// The velocity that results from applying this intent to `v` over `delta`
    /// time units.
    pub open spec fn applied(self, v: Vector2, delta: int) -> (int, int) {
        let d = self.direction.unit();
        match self.acceleration {
            Acceleration::Snap => (d.0 * self.speed.0, d.1 * self.speed.0),
            Acceleration::Stop => (0, 0),
            Acceleration::Rate(rate) => {
                let change = delta * rate;
                if self.decelerates(v) {
                    (toward_zero(v.x as int, change), toward_zero(v.y as int, change))
                } else {
                    (v.x + d.0 * change, v.y + d.1 * change)
                }
            },
        }
    }

    /// Applies this intent to `velocity` over `delta` time units; a component
    /// beyond the range of `i64` saturates at its bound.
    pub fn apply(&self, velocity: Vector2, delta: u32) -> (r: Vector2)
        ensures
            r@ == saturate(self.applied(velocity, delta as int)),
            fits_i64(self.applied(velocity, delta as int)) ==> r@ == self.applied(
                velocity,
                delta as int,
            ),
    {
        let d = self.direction.as_vec2();
        match self.acceleration {
            Acceleration::Snap => {
                let s = self.speed.0 as i128;
                let x = scale_unit(d.x, s);
                let y = scale_unit(d.y, s);
                Vector2 { x: saturating_i64(x), y: saturating_i64(y) }
            },
            Acceleration::Stop => Vector2::zero(),
            Acceleration::Rate(rate) => {
                proof {
                    lemma_change_bound(delta as int, rate as int);
                }
                let change = (delta as i128) * (rate as i128);
                let len_sqr = velocity.length_squared();
                proof {
                    lemma_speed_square_bound(self.speed.0 as int);
                }
                let cap = (self.speed.0 as u128) * (self.speed.0 as u128);
                if (d.is_zero() && len_sqr > 0) || len_sqr >= cap {
                    let x = step_toward_zero(velocity.x, change);
                    let y = step_toward_zero(velocity.y, change);
                    Vector2 { x: saturating_i64(x), y: saturating_i64(y) }
                } else {
                    let x = velocity.x as i128 + scale_unit(d.x, change);
                    let y = velocity.y as i128 + scale_unit(d.y, change);
                    Vector2 { x: saturating_i64(x), y: saturating_i64(y) }
                }
            },
        }
    }
}

/// The pending intent after a submission: the new intent, whatever was there.
pub open spec fn after_submit(
    pending: Option<MovementIntent>,
    intent: MovementIntent,
) -> Option<MovementIntent> {
    Some(intent)
}

/// The pending intent after a step: none, whatever was there.
pub open spec fn after_step(pending: Option<MovementIntent>) -> Option<MovementIntent> {
    None
}

/// The velocity after a step over `delta` time units: `v` itself when nothing
/// is pending, else the pending intent applied to `v`.
pub open spec fn step_result(pending: Option<MovementIntent>, v: Vector2, delta: int) -> (int, int) {
    match pending {
        Some(intent) => intent.applied(v, delta),
        None => v@,
    }
}

/// Per-entity movement state: at most one pending intent.
#[derive(Clone, Copy, Debug)]
pub struct Controller {
    pending: Option<MovementIntent>,
}

impl View for Controller {
    type V = Option<MovementIntent>;

    /// The pending intent.
    closed spec fn view(&self) -> Option<MovementIntent> {
        self.pending
    }
}

impl Controller {
    /// A controller with no pending intent.
    pub fn new() -> (r: Controller)
        ensures
            r@ is None,
    {
        Controller { pending: None }
    }

    /// The pending intent, if any.
    pub fn pending(&self) -> (r: Option<MovementIntent>)
        ensures
            r == self@,
    {
        self.pending
    }

    /// Stages `intent` for the next step, replacing any pending intent.
    pub fn submit_intent(&mut self, intent: MovementIntent)
        ensures
            final(self)@ == after_submit(old(self)@, intent),
    {
        self.pending = Some(intent);
    }

    /// Applies the pending intent, if any, to `velocity` over `delta` time
    /// units, and clears it. A component beyond the range of `i64` saturates
    /// at its bound.
    pub fn step(&mut self, velocity: &mut Vector2, delta: u32)
        ensures
            final(self)@ == after_step(old(self)@),
            final(velocity)@ == saturate(step_result(old(self)@, *old(velocity), delta as int)),
            fits_i64(step_result(old(self)@, *old(velocity), delta as int)) ==> final(velocity)@
                == step_result(old(self)@, *old(velocity), delta as int),
            old(self)@ is None ==> *final(velocity) == *old(velocity),
    {
        match self.pending {
            Some(intent) => {
                *velocity = intent.apply(*velocity, delta);
            },
            None => {},
        }
        self.pending = None;
    }
}

/// A controller together with the movement parameters of its entity.
#[derive(Clone, Copy, Debug)]
pub struct ControllerBundle {
    pub controller: Controller,
    pub acceleration: Acceleration,
    pub direction: Direction,
    pub speed: Speed,
}

impl ControllerBundle {
    /// A bundle with an idle controller and the given parameters.
    pub fn new(acceleration: Acceleration, speed: Speed, direction: Option<Dir2>) -> (r:
        ControllerBundle)
        ensures
            r.controller@ is None,
            r.acceleration == acceleration,
            r.speed == speed,
            r.direction == Direction(direction),
    {
        ControllerBundle {
            controller: Controller::new(),
            acceleration,
            direction: Direction(direction),
            speed,
        }
    }
}

/// Only the last submission before a step has effect: submitting `a` and then
/// `b` leaves the same pending intent as submitting `b` alone, and the next
/// step applies `b`.
pub proof fn lemma_last_submission_wins(
    pending: Option<MovementIntent>,
    a: MovementIntent,
    b: MovementIntent,
    v: Vector2,
    delta: int,
)
    ensures
        after_submit(after_submit(pending, a), b) == after_submit(pending, b),
        step_result(after_submit(after_submit(pending, a), b), v, delta) == b.applied(v, delta),
{
}

/// A step leaves nothing pending, so a second step right after it changes no
/// velocity and leaves the controller as it was.
pub proof fn lemma_step_then_idle(
    pending: Option<MovementIntent>,
    v: Vector2,
    delta: int,
)
    ensures
        after_step(after_step(pending)) == after_step(pending),
        step_result(after_step(pending), v, delta) == v@,
{
}

/// With no elapsed time the gradual rule leaves velocity as it is, whatever
/// the direction, speed and rate.
pub proof fn lemma_zero_delta_keeps_velocity(intent: MovementIntent, v: Vector2)
    requires
        intent.acceleration is Rate,
    ensures
        intent.applied(v, 0) == v@,
{
}

/// `unit * amount` for a unit component of -1, 0 or 1.
fn scale_unit(unit: i64, amount: i128) -> (r: i128)
    requires
        -1 <= unit <= 1,
        -MAX_CHANGE <= amount <= MAX_CHANGE,
    ensures
        r == unit * amount,
        -MAX_CHANGE <= r <= MAX_CHANGE,
{
    if unit > 0 {
        assert(unit == 1);
        amount
    } else if unit < 0 {
        assert(unit == -1);
        -amount
    } else {
        0
    }
}

/// One velocity component moved toward zero by `change`.
fn step_toward_zero(c: i64, change: i128) -> (r: i128)
    requires
        -MAX_CHANGE <= change <= MAX_CHANGE,
    ensures
        r == toward_zero(c as int, change as int),
{
    if c < 0 {
        c as i128 + change
    } else {
        c as i128 - change
    }
}

/// `delta * rate` stays within `MAX_CHANGE` in magnitude.
proof fn lemma_change_bound(delta: int, rate: int)
    requires
        0 <= delta <= u32::MAX,
        i64::MIN <= rate <= i64::MAX,
    ensures
        -MAX_CHANGE <= delta * rate <= MAX_CHANGE,
{
    assert(-MAX_CHANGE <= delta * rate <= MAX_CHANGE) by (nonlinear_arith)
        requires
            0 <= delta <= 0xffff_ffff,
            -0x8000_0000_0000_0000 <= rate <= 0x7fff_ffff_ffff_ffff,
            MAX_CHANGE == 0x8000_0000_0000_0000_0000_0000,
    ;
}

/// The square of a `u64` speed fits in `u128`.
proof fn lemma_speed_square_bound(s: int)
    requires
        0 <= s <= u64::MAX,
    ensures
        0 <= s * s <= u128::MAX,
{
    assert(0 <= s * s <= u128::MAX) by (nonlinear_arith)
        requires
            0 <= s <= 0xffff_ffff_ffff_ffff,
    ;
}

} // verus!
