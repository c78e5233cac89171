//! Integrating the position and orientation of a movable entity.

use vstd::prelude::*;
use crate::input::{Direction, MoveKeys, TurnKeys};
use crate::vector::{narrow, plus, representable, scaled, norm_squared, wide_product, Vec2};

verus! {

/// Angle units in one full turn. Angles are whole thousandths of a degree.
pub const FULL_TURN: i32 = 360_000;

/// Position, orientation and scale of an entity in the plane.
#[derive(Clone, Copy, Debug, PartialEq, Eq, Structural)]
pub struct Transform2D {
    /// World or local position, depending on context.
    pub position: Vec2,
    /// Counter-clockwise angle, in thousandths of a degree.
    pub rotation: i32,
    /// Scale along each local axis.
    pub scale: Vec2,
}

impl Transform2D {
    /// The rotation is normalised to one turn and the scale is non-negative.
    pub open spec fn wf(self) -> bool {
        &&& 0 <= self.rotation < FULL_TURN
        &&& self.scale.x >= 0
        &&& self.scale.y >= 0
    }

    /// An unrotated transform of unit scale at `position`.
    pub fn at(position: Vec2) -> (t: Transform2D)
        ensures
            t.wf(),
            t.position == position,
            t.rotation == 0,
            t.scale@ == (1int, 1int),
    {
        Transform2D { position, rotation: 0, scale: Vec2 { x: 1, y: 1 } }
    }
}

/// A fixed reference point: a transform that nothing moves.
#[derive(Clone, Copy, Debug, PartialEq, Eq, Structural)]
pub struct StaticMarker {
    pub transform: Transform2D,
}

/// A transform together with the speeds at which input moves it.
#[derive(Clone, Copy, Debug, PartialEq, Eq, Structural)]
pub struct MovableEntity {
    pub transform: Transform2D,
    /// Lattice units travelled per time unit along each pressed axis.
    pub speed: i32,
    /// Angle units turned per time unit, for entities that can rotate.
    pub angular_speed: Option<i32>,
}

/// Why a movement could not be applied.
#[derive(Clone, Copy, Debug, PartialEq, Eq, Structural)]
pub enum MotionError {
    /// The new position has a coordinate outside the lattice's range.
    OutOfRange,
}

/// The displacement caused by holding `direction` for `elapsed` time units
/// at `speed`: each axis moves independently, so a diagonal is not shortened.
pub open spec fn displacement(direction: (int, int), speed: int, elapsed: int) -> (int, int) {
    scaled(direction, speed * elapsed)
}

/// The angle `rotation + intent * angular_speed * elapsed`, wrapped into
/// `[0, FULL_TURN)`.
pub open spec fn turned(rotation: int, intent: int, angular_speed: int, elapsed: int) -> int {
    (rotation + intent * (angular_speed * elapsed)) % (FULL_TURN as int)
}

/// `sign * amount` for a sign in {-1, 0, 1}.
fn signed(sign: i8, amount: i128) -> (out: i128)
    requires
        -1 <= sign <= 1,
        -0x4_0000_0000_0000_0000 <= amount <= 0x4_0000_0000_0000_0000,
    ensures
        out as int == sign * amount,
        -0x4_0000_0000_0000_0000 <= out <= 0x4_0000_0000_0000_0000,
{
    assert(sign * amount == if sign == 1 {
        amount as int
    } else if sign == -1 {
        -(amount as int)
    } else {
        0int
    }) by (nonlinear_arith)
        requires
            -1 <= sign <= 1,
    ;
    if sign == 1 {
        amount
    } else if sign == -1 {
        -amount
    } else {
        0
    }
}

/// Wraps any angle into `[0, FULL_TURN)`.
pub fn normalize_angle(angle: i128) -> (out: i32)
    ensures
        out as int == (angle as int) % (FULL_TURN as int),
        0 <= out < FULL_TURN,
{
    let turn: u128 = FULL_TURN as u128;
    if angle >= 0 {
        let a: u128 = angle as u128;
        (a % turn) as i32
    } else {
        let lifted: i128 = angle + FULL_TURN as i128;
        if lifted >= 0 {
            lifted as i32
        } else {
            let a: u128 = (-lifted) as u128;
            let m: u128 = a % turn;
            if m == 0 {
                0
            } else {
                (turn - m) as i32
            }
        }
    }
}

impl MovableEntity {
    /// Where the entity stands after holding `keys` for `elapsed` time units.
    pub open spec fn moved_position(self, keys: MoveKeys, elapsed: int) -> (int, int) {
        plus(self.transform.position@, displacement(keys.direction_spec(), self.speed as int, elapsed))
    }

    /// The entity's orientation after holding `keys` for `elapsed` time
    /// units; an entity without an angular speed keeps its orientation.
    pub open spec fn turned_rotation(self, keys: TurnKeys, elapsed: int) -> int {
        match self.angular_speed {
            Some(w) => turned(self.transform.rotation as int, keys.intent_spec(), w as int, elapsed),
            None => self.transform.rotation as int,
        }
    }

    /// Whether `self` is what `before` becomes after one update with the
    /// given keys held for `elapsed` time units.
    pub open spec fn is_step_of(
        self,
        before: MovableEntity,
        moves: MoveKeys,
        turns: TurnKeys,
        elapsed: int,
    ) -> bool {
        &&& self.transform.position@ == before.moved_position(moves, elapsed)
        &&& self.transform.rotation as int == before.turned_rotation(turns, elapsed)
        &&& self.transform.scale == before.transform.scale
        &&& self.speed == before.speed
        &&& self.angular_speed == before.angular_speed
    }

    /// Moves the entity by `direction * speed * elapsed`.
    ///
    /// Fails, leaving the entity untouched, exactly when the new position
    /// cannot be represented.
    pub fn translate(&mut self, keys: MoveKeys, elapsed: u32) -> (r: Result<(), MotionError>)
        ensures
            r.is_ok() <==> representable(old(self).moved_position(keys, elapsed as int)),
            r.is_ok() ==> final(self).transform.position@ == old(self).moved_position(keys, elapsed as int),
            r.is_err() ==> final(self).transform.position == old(self).transform.position,
            final(self).transform.rotation == old(self).transform.rotation,
            final(self).transform.scale == old(self).transform.scale,
            final(self).speed == old(self).speed,
            final(self).angular_speed == old(self).angular_speed,
    {
        let dir: Direction = keys.direction();
        let step: i128 = wide_product(self.speed as i64, elapsed as i64);
        let dx: i128 = signed(dir.x, step);
        let dy: i128 = signed(dir.y, step);
        let x: i128 = self.transform.position.x as i128 + dx;
        let y: i128 = self.transform.position.y as i128 + dy;
        match narrow(x, y) {
            Some(p) => {
                self.transform.position = p;
                Ok(())
            },
            None => Err(MotionError::OutOfRange),
        }
    }

    /// Turns the entity by `intent * angular_speed * elapsed`, wrapping the
    /// angle into one turn. An entity without an angular speed is unchanged.
    pub fn rotate(&mut self, keys: TurnKeys, elapsed: u32)
        ensures
            final(self).transform.rotation as int == old(self).turned_rotation(keys, elapsed as int),
            old(self).transform.wf() ==> final(self).transform.wf(),
            final(self).transform.position == old(self).transform.position,
            final(self).transform.scale == old(self).transform.scale,
            final(self).speed == old(self).speed,
            final(self).angular_speed == old(self).angular_speed,
    {
        match self.angular_speed {
            Some(w) => {
                let step: i128 = wide_product(w as i64, elapsed as i64);
                let delta: i128 = signed(keys.intent(), step);
                let angle: i128 = self.transform.rotation as i128 + delta;
                self.transform.rotation = normalize_angle(angle);
            },
            None => {},
        }
    }
}

impl MovableEntity {
    /// One full update: moves, then turns.
    ///
    /// Fails, leaving the entity untouched, exactly when the new position
    /// cannot be represented.
    pub fn step(&mut self, moves: MoveKeys, turns: TurnKeys, elapsed: u32) -> (r: Result<
        (),
        MotionError,
    >)
        ensures
            r.is_ok() <==> representable(old(self).moved_position(moves, elapsed as int)),
            r.is_ok() ==> final(self).is_step_of(*old(self), moves, turns, elapsed as int),
            r.is_err() ==> *final(self) == *old(self),
            old(self).transform.wf() ==> final(self).transform.wf(),
    {
        match self.translate(moves, elapsed) {
            Ok(()) => {
                self.rotate(turns, elapsed);
                Ok(())
            },
            Err(e) => Err(e),
        }
    }
}

/// The squared length of a displacement is `(speed * elapsed)^2` times the
/// squared length of the key direction: one axis gives `(speed * elapsed)^2`,
/// a diagonal twice that, and cancelled keys give zero.
pub proof fn lemma_displacement_magnitude(keys: MoveKeys, speed: int, elapsed: nat)
    ensures
        norm_squared(displacement(keys.direction_spec(), speed, elapsed as int))
            == (speed * elapsed) * (speed * elapsed) * norm_squared(keys.direction_spec()),
        0 <= norm_squared(keys.direction_spec()) <= 2,
{
    let d = keys.direction_spec();
    let k = speed * elapsed;
    assert(0 <= d.0 * d.0 <= 1 && 0 <= d.1 * d.1 <= 1) by (nonlinear_arith)
        requires
            -1 <= d.0 <= 1,
            -1 <= d.1 <= 1,
    ;
    assert((d.0 * k) * (d.0 * k) + (d.1 * k) * (d.1 * k) == (k * k) * (d.0 * d.0 + d.1 * d.1))
        by (nonlinear_arith);
}

/// Turning by a whole number of full turns leaves a normalised angle as it is.
pub proof fn lemma_full_turns_vanish(rotation: int, turns: int)
    requires
        0 <= rotation < FULL_TURN,
    ensures
        (rotation + turns * FULL_TURN) % (FULL_TURN as int) == rotation,
{
    vstd::arithmetic::div_mod::lemma_mod_multiples_vanish(turns, rotation, FULL_TURN as int);
}

} // verus!
