//! Composing a child's local position with its parent's frame.

use vstd::prelude::*;
use crate::kinematics::{normalize_angle, Transform2D, FULL_TURN};
use crate::vector::{narrow, norm_squared, plus, representable, scaled, wide_product, Vec2};

verus! {

/// Angle units in a quarter turn.
pub const QUARTER_TURN: i32 = 90_000;

/// The local axes of a frame, expressed in world coordinates.
///
/// For a frame rotated by an angle `t` the axes are `(cos t, sin t)` and
/// `(-sin t, cos t)`, both multiplied by a common length chosen by whoever
/// builds the basis. Axes of length 1 exist on the lattice only at quarter
/// turns; a caller that needs other angles supplies longer axes and reads the
/// resulting offsets in that finer unit.
#[derive(Clone, Copy, Debug, PartialEq, Eq, Structural)]
pub struct Basis {
    pub x_axis: Vec2,
    pub y_axis: Vec2,
}

/// The vector turned a quarter turn counter-clockwise.
pub open spec fn perpendicular(v: (int, int)) -> (int, int) {
    (-v.1, v.0)
}

/// The unit axes of a frame rotated by `quarters` quarter turns (0 to 3).
pub open spec fn quarter_axis(quarters: int) -> (int, int) {
    if quarters == 0 {
        (1, 0)
    } else if quarters == 1 {
        (0, 1)
    } else if quarters == 2 {
        (-1, 0)
    } else {
        (0, -1)
    }
}

/// The offset, in world coordinates, of a point at `local` in a frame whose
/// axes are `x_axis` and `y_axis`.
pub open spec fn world_offset(x_axis: (int, int), y_axis: (int, int), local: (int, int)) -> (
    int,
    int,
) {
    plus(scaled(x_axis, local.0), scaled(y_axis, local.1))
}

/// The world position of a point at `local` in a frame placed at `origin`.
pub open spec fn world_position(
    origin: (int, int),
    x_axis: (int, int),
    y_axis: (int, int),
    local: (int, int),
) -> (int, int) {
    plus(origin, world_offset(x_axis, y_axis, local))
}

/// The world position of a point at `local` in the frame of a parent that is
/// rotated by a whole number of quarter turns.
pub open spec fn unit_world_position(parent: Transform2D, local: (int, int)) -> (int, int) {
    let x_axis = quarter_axis((parent.rotation as int % FULL_TURN as int) / QUARTER_TURN as int);
    world_position(parent.position@, x_axis, perpendicular(x_axis), local)
}

impl Basis {
    /// The second axis is the first one turned a quarter turn.
    pub open spec fn wf(self) -> bool {
        self.y_axis@ == perpendicular(self.x_axis@)
    }

    /// The basis of an unrotated frame.
    pub fn identity() -> (b: Basis)
        ensures
            b.wf(),
            b.x_axis@ == (1int, 0int),
            b.y_axis@ == (0int, 1int),
    {
        Basis { x_axis: Vec2 { x: 1, y: 0 }, y_axis: Vec2 { x: 0, y: 1 } }
    }

    /// The basis whose first axis is `x_axis`, or `None` when the
    /// perpendicular axis cannot be represented.
    pub fn from_x_axis(x_axis: Vec2) -> (b: Option<Basis>)
        ensures
            b.is_some() <==> representable(perpendicular(x_axis@)),
            b.is_some() ==> b.unwrap().wf() && b.unwrap().x_axis == x_axis,
    {
        match narrow(-(x_axis.y as i128), x_axis.x as i128) {
            Some(y_axis) => Some(Basis { x_axis, y_axis }),
            None => None,
        }
    }

    /// The unit basis of a frame rotated by `rotation`, which exists exactly
    /// when the rotation is a whole number of quarter turns.
    pub fn for_rotation(rotation: i32) -> (b: Option<Basis>)
        ensures
            b.is_some() <==> rotation as int % QUARTER_TURN as int == 0,
            b.is_some() ==> {
                &&& b.unwrap().wf()
                &&& b.unwrap().x_axis@ == quarter_axis(
                    (rotation as int % FULL_TURN as int) / QUARTER_TURN as int,
                )
            },
    {
        let rotation: i32 = normalize_angle(rotation as i128);
        if rotation == 0 {
            Some(Basis { x_axis: Vec2 { x: 1, y: 0 }, y_axis: Vec2 { x: 0, y: 1 } })
        } else if rotation == QUARTER_TURN {
            Some(Basis { x_axis: Vec2 { x: 0, y: 1 }, y_axis: Vec2 { x: -1, y: 0 } })
        } else if rotation == 2 * QUARTER_TURN {
            Some(Basis { x_axis: Vec2 { x: -1, y: 0 }, y_axis: Vec2 { x: 0, y: -1 } })
        } else if rotation == 3 * QUARTER_TURN {
            Some(Basis { x_axis: Vec2 { x: 0, y: -1 }, y_axis: Vec2 { x: 1, y: 0 } })
        } else {
            None
        }
    }
}

/// The world position of a child whose own position is expressed in the
/// frame of `parent`, whose axes are `basis`:
/// `parent.position + basis.x_axis * child.x + basis.y_axis * child.y`.
///
/// Returns `None` exactly when that position lies outside the lattice's range.
pub fn local_to_world(parent: &Transform2D, basis: &Basis, child: &Transform2D) -> (world: Option<
    Vec2,
>)
    ensures
        world.is_some() <==> representable(
            world_position(parent.position@, basis.x_axis@, basis.y_axis@, child.position@),
        ),
        world.is_some() ==> world.unwrap()@ == world_position(
            parent.position@,
            basis.x_axis@,
            basis.y_axis@,
            child.position@,
        ),
{
    let lx: i64 = child.position.x as i64;
    let ly: i64 = child.position.y as i64;
    let xx: i128 = wide_product(basis.x_axis.x as i64, lx);
    let xy: i128 = wide_product(basis.x_axis.y as i64, lx);
    let yx: i128 = wide_product(basis.y_axis.x as i64, ly);
    let yy: i128 = wide_product(basis.y_axis.y as i64, ly);
    narrow(parent.position.x as i128 + xx + yx, parent.position.y as i128 + xy + yy)
}

/// Why a child could not be placed in world space.
#[derive(Clone, Copy, Debug, PartialEq, Eq, Structural)]
pub enum FrameError {
    /// The parent is not rotated by a whole number of quarter turns, so its
    /// unit axes do not lie on the lattice.
    InexactRotation,
    /// The world position has a coordinate outside the lattice's range.
    OutOfRange,
}

/// The world position of a child of `parent`, using the unit axes that the
/// parent's own rotation gives.
///
/// Fails with `InexactRotation` exactly when the parent's rotation is not a
/// whole number of quarter turns, and otherwise with `OutOfRange` exactly
/// when the position cannot be represented.
pub fn child_world_position(parent: &Transform2D, child: &Transform2D) -> (r: Result<
    Vec2,
    FrameError,
>)
    ensures
        r == Err::<Vec2, FrameError>(FrameError::InexactRotation) <==> parent.rotation as int
            % QUARTER_TURN as int != 0,
        r == Err::<Vec2, FrameError>(FrameError::OutOfRange) <==> {
            &&& parent.rotation as int % QUARTER_TURN as int == 0
            &&& !representable(unit_world_position(*parent, child.position@))
        },
        r.is_ok() <==> {
            &&& parent.rotation as int % QUARTER_TURN as int == 0
            &&& representable(unit_world_position(*parent, child.position@))
        },
        r.is_ok() ==> r.unwrap()@ == unit_world_position(*parent, child.position@),
{
    match Basis::for_rotation(parent.rotation) {
        Some(basis) => {
            match local_to_world(parent, &basis, child) {
                Some(world) => Ok(world),
                None => Err(FrameError::OutOfRange),
            }
        },
        None => Err(FrameError::InexactRotation),
    }
}

/// The segment drawn from the world origin to a point.
#[derive(Clone, Copy, Debug, PartialEq, Eq, Structural)]
pub struct Segment {
    /// Twice the segment's midpoint (the midpoint itself may fall between
    /// lattice points).
    pub twice_center: Vec2,
    /// A vector along the segment, from the origin towards the point.
    pub direction: Vec2,
    /// The squared length of the segment.
    pub length_squared: u64,
}

/// The segment that connects the world origin to `world`: centred on the
/// midpoint, pointing from the origin to the point, as long as the point is
/// far from the origin.
pub fn segment_from_origin(world: Vec2) -> (s: Segment)
    ensures
        s.twice_center == world,
        s.direction == world,
        s.length_squared as int == norm_squared(world@),
{
    Segment { twice_center: world, direction: world, length_squared: world.length_squared() }
}

/// A well-formed basis turns and stretches but never distorts: the squared
/// length of a world offset is the squared length of the local position
/// times the squared length of an axis.
pub proof fn lemma_offset_length(x_axis: (int, int), local: (int, int))
    ensures
        norm_squared(world_offset(x_axis, perpendicular(x_axis), local)) == norm_squared(x_axis)
            * norm_squared(local),
{
    let c = x_axis.0;
    let s = x_axis.1;
    let x = local.0;
    let y = local.1;
    assert((-s) * y == -(s * y)) by (nonlinear_arith);
    crate::relation::lemma_two_squares_identity(c, s, x, -y);
    assert(c * x + s * (-y) == c * x - s * y) by (nonlinear_arith);
    assert(c * (-y) - s * x == -(s * x + c * y)) by (nonlinear_arith);
    assert((-(s * x + c * y)) * (-(s * x + c * y)) == (s * x + c * y) * (s * x + c * y))
        by (nonlinear_arith);
    assert((-y) * (-y) == y * y) by (nonlinear_arith);
}

/// In an unrotated unit frame the world offset is the local position itself.
pub proof fn lemma_identity_offset(local: (int, int))
    ensures
        world_offset((1, 0), (0, 1), local) == local,
{
}

} // verus!
