//! Describing the ray that a collision backend is asked to cast.

use vstd::prelude::*;
use crate::vector::{narrow, plus, representable, Vec2};

verus! {

/// A ray: where it starts, which way it points and how far it reaches.
#[derive(Clone, Copy, Debug, PartialEq, Eq, Structural)]
pub struct Ray {
    pub origin: Vec2,
    pub direction: Vec2,
    pub max_distance: u32,
}

/// The ray cast straight up from a point `lift` units above `from`, reaching
/// `reach` units far. `None` exactly when the lifted origin leaves the
/// lattice's range.
pub fn upward_ray(from: Vec2, lift: u32, reach: u32) -> (ray: Option<Ray>)
    ensures
        ray.is_some() <==> representable(plus(from@, (0int, lift as int))),
        ray.is_some() ==> {
            &&& ray.unwrap().origin@ == plus(from@, (0int, lift as int))
            &&& ray.unwrap().direction@ == (0int, 1int)
            &&& ray.unwrap().max_distance == reach
        },
{
    match narrow(from.x as i128, from.y as i128 + lift as i128) {
        Some(origin) => Some(Ray { origin, direction: Vec2 { x: 0, y: 1 }, max_distance: reach }),
        None => None,
    }
}

} // verus!
