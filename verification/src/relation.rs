//! Scalar and boolean relations between two world positions.

use vstd::prelude::*;
use crate::vector::{dot, minus, narrow, negated, norm_squared, representable, wide_product, Vec2};

verus! {

/// Squared Euclidean distance between two points.
pub open spec fn distance_squared(p: (int, int), r: (int, int)) -> int {
    norm_squared(minus(p, r))
}

/// Whether `p` lies strictly closer to `r` than `half_side`.
///
/// For a non-negative `half_side` this is the comparison
/// `distance < half_side`, written over squares so that it stays exact.
pub open spec fn within(p: (int, int), r: (int, int), half_side: int) -> bool {
    distance_squared(p, r) < half_side * half_side
}

/// Outcome of the proximity test.
#[derive(Clone, Copy, Debug, PartialEq, Eq, Structural)]
pub enum Containment {
    Inside,
    Outside,
}

/// The exact squared distance between two lattice points.
pub fn squared_distance(p: Vec2, r: Vec2) -> (d: u128)
    ensures
        d as int == distance_squared(p@, r@),
{
    let dx: i64 = p.x as i64 - r.x as i64;
    let dy: i64 = p.y as i64 - r.y as i64;
    let xx: i128 = wide_product(dx, dx);
    let yy: i128 = wide_product(dy, dy);
    proof {
        crate::vector::lemma_square_nonnegative(dx as int);
        crate::vector::lemma_square_nonnegative(dy as int);
    }
    (xx + yy) as u128
}

/// Classifies `player` as inside when its distance to `target` is strictly
/// less than `half_side`, and as outside otherwise: a point at exactly
/// `half_side` is outside.
pub fn classify(player: Vec2, target: Vec2, half_side: u32) -> (c: Containment)
    ensures
        c == Containment::Inside <==> within(player@, target@, half_side as int),
        c == Containment::Outside <==> !within(player@, target@, half_side as int),
{
    let d: u128 = squared_distance(player, target);
    let h: i128 = wide_product(half_side as i64, half_side as i64);
    proof {
        crate::vector::lemma_square_nonnegative(half_side as int);
    }
    if d < h as u128 {
        Containment::Inside
    } else {
        Containment::Outside
    }
}

/// Where the distance is a whole number `d`, the squared comparison is the
/// plain one: inside exactly when `d < half_side`.
pub proof fn lemma_within_is_strict_distance(p: (int, int), r: (int, int), half_side: nat, d: nat)
    requires
        d * d == distance_squared(p, r),
    ensures
        within(p, r, half_side as int) <==> d < half_side,
{
    assert(d * d < half_side * half_side <==> d < half_side) by (nonlinear_arith);
}

/// Where the distance is not a whole number, whole bounds on it decide the
/// same way: a point is inside only if a lower bound on its distance is below
/// `half_side`, and it is inside whenever an upper bound is.
pub proof fn lemma_within_between_bounds(
    p: (int, int),
    r: (int, int),
    half_side: nat,
    lower: nat,
    upper: nat,
)
    requires
        lower * lower <= distance_squared(p, r) <= upper * upper,
    ensures
        within(p, r, half_side as int) ==> lower < half_side,
        upper < half_side ==> within(p, r, half_side as int),
{
    assert(lower * lower < half_side * half_side ==> lower < half_side) by (nonlinear_arith);
    assert(upper < half_side ==> upper * upper < half_side * half_side) by (nonlinear_arith);
}

/// The cosine of the angle between two position vectors, kept exact.
///
/// The value it stands for is `dot / sqrt(norms)`, or zero where `norms`
/// is zero (a zero vector normalises to the zero vector).
#[derive(Clone, Copy, Debug, PartialEq, Eq, Structural)]
pub struct Alignment {
    /// Dot product of the two vectors.
    pub dot: i128,
    /// Product of the two squared lengths.
    pub norms: u128,
}

/// The product of the squared lengths of two vectors.
pub open spec fn norms_product(p: (int, int), r: (int, int)) -> int {
    norm_squared(p) * norm_squared(r)
}

impl Alignment {
    /// The measure is exactly 1: the two vectors point the same way.
    pub open spec fn is_one(self) -> bool {
        self.dot > 0 && self.dot * self.dot == self.norms
    }

    /// The measure is exactly -1: the two vectors point opposite ways.
    pub open spec fn is_minus_one(self) -> bool {
        self.dot < 0 && self.dot * self.dot == self.norms
    }

    /// The measure is exactly 0.
    pub open spec fn is_zero(self) -> bool {
        self.dot == 0
    }

    /// The measure lies in `[-1, 1]`.
    pub open spec fn bounded(self) -> bool {
        self.dot * self.dot <= self.norms
    }

    /// The sign of the measure: 1, 0 or -1.
    pub fn signum(&self) -> (s: i8)
        ensures
            s == 1 <==> self.dot > 0,
            s == 0 <==> self.dot == 0,
            s == -1 <==> self.dot < 0,
    {
        if self.dot > 0 {
            1
        } else if self.dot < 0 {
            -1
        } else {
            0
        }
    }
}

/// How well the directions of `player` and `target`, both seen from the
/// world origin, agree. This compares positions, not headings.
pub fn facing_alignment(player: Vec2, target: Vec2) -> (a: Alignment)
    ensures
        a.dot as int == dot(player@, target@),
        a.norms as int == norms_product(player@, target@),
        a.bounded(),
{
    let d: i128 = player.dot(target);
    let pn: u64 = player.length_squared();
    let rn: u64 = target.length_squared();
    proof {
        crate::vector::lemma_square_bounds(player.x as int);
        crate::vector::lemma_square_bounds(player.y as int);
        crate::vector::lemma_square_bounds(target.x as int);
        crate::vector::lemma_square_bounds(target.y as int);
        assert(0 <= pn * rn <= 0x8000_0000_0000_0000 * 0x8000_0000_0000_0000) by (nonlinear_arith)
            requires
                0 <= pn <= 0x8000_0000_0000_0000,
                0 <= rn <= 0x8000_0000_0000_0000,
        ;
        lemma_alignment_bounded(player@, target@);
    }
    let n: u128 = (pn as u128) * (rn as u128);
    Alignment { dot: d, norms: n }
}

/// The measure never leaves `[-1, 1]`: the squared dot product is at most
/// the product of the squared lengths.
pub proof fn lemma_alignment_bounded(p: (int, int), r: (int, int))
    ensures
        dot(p, r) * dot(p, r) <= norms_product(p, r),
{
    lemma_two_squares_identity(p.0, p.1, r.0, r.1);
    crate::vector::lemma_square_nonnegative(p.0 * r.1 - p.1 * r.0);
}

/// The product of two sums of two squares is itself a sum of two squares.
pub(crate) proof fn lemma_two_squares_identity(a: int, b: int, c: int, d: int)
    ensures
        (a * a + b * b) * (c * c + d * d) == (a * c + b * d) * (a * c + b * d) + (a * d - b * c)
            * (a * d - b * c),
{
    let ac = a * c;
    let bd = b * d;
    let ad = a * d;
    let bc = b * c;
    assert((a * a + b * b) * (c * c + d * d) == (a * a) * (c * c) + (a * a) * (d * d) + (b * b)
        * (c * c) + (b * b) * (d * d)) by (nonlinear_arith);
    assert((ac + bd) * (ac + bd) == ac * ac + 2 * (ac * bd) + bd * bd) by (nonlinear_arith);
    assert((ad - bc) * (ad - bc) == ad * ad - 2 * (ad * bc) + bc * bc) by (nonlinear_arith);
    assert(ac * ac == (a * a) * (c * c)) by (nonlinear_arith)
        requires
            ac == a * c,
    ;
    assert(bd * bd == (b * b) * (d * d)) by (nonlinear_arith)
        requires
            bd == b * d,
    ;
    assert(ad * ad == (a * a) * (d * d)) by (nonlinear_arith)
        requires
            ad == a * d,
    ;
    assert(bc * bc == (b * b) * (c * c)) by (nonlinear_arith)
        requires
            bc == b * c,
    ;
    assert(ac * bd == ad * bc) by (nonlinear_arith)
        requires
            ac == a * c,
            bd == b * d,
            ad == a * d,
            bc == b * c,
    ;
}

/// Negating both vectors changes neither part of the measure.
pub proof fn lemma_alignment_negation(p: (int, int), r: (int, int))
    ensures
        dot(negated(p), negated(r)) == dot(p, r),
        norms_product(negated(p), negated(r)) == norms_product(p, r),
{
    assert((-p.0) * (-r.0) == p.0 * r.0) by (nonlinear_arith);
    assert((-p.1) * (-r.1) == p.1 * r.1) by (nonlinear_arith);
    assert((-p.0) * (-p.0) == p.0 * p.0) by (nonlinear_arith);
    assert((-p.1) * (-p.1) == p.1 * p.1) by (nonlinear_arith);
    assert((-r.0) * (-r.0) == r.0 * r.0) by (nonlinear_arith);
    assert((-r.1) * (-r.1) == r.1 * r.1) by (nonlinear_arith);
}

/// A non-zero vector is perfectly aligned with itself: the measure is 1.
pub proof fn lemma_alignment_identical(p: (int, int))
    requires
        p != (0int, 0int),
    ensures
        dot(p, p) > 0,
        dot(p, p) * dot(p, p) == norms_product(p, p),
{
    assert(p.0 * p.0 + p.1 * p.1 > 0) by (nonlinear_arith)
        requires
            p.0 != 0 || p.1 != 0,
    ;
}

/// A non-zero vector and its negation are perfectly opposed: the measure is -1.
pub proof fn lemma_alignment_opposite(p: (int, int))
    requires
        p != (0int, 0int),
    ensures
        dot(p, negated(p)) < 0,
        dot(p, negated(p)) * dot(p, negated(p)) == norms_product(p, negated(p)),
{
    let n = p.0 * p.0 + p.1 * p.1;
    assert(n > 0) by (nonlinear_arith)
        requires
            n == p.0 * p.0 + p.1 * p.1,
            p.0 != 0 || p.1 != 0,
    ;
    assert(p.0 * (-p.0) == -(p.0 * p.0)) by (nonlinear_arith);
    assert(p.1 * (-p.1) == -(p.1 * p.1)) by (nonlinear_arith);
    assert((-p.0) * (-p.0) == p.0 * p.0) by (nonlinear_arith);
    assert((-p.1) * (-p.1) == p.1 * p.1) by (nonlinear_arith);
    assert((-n) * (-n) == n * n) by (nonlinear_arith);
}

/// With a zero vector on either side the measure is 0.
pub proof fn lemma_alignment_zero_vector(p: (int, int), r: (int, int))
    requires
        p == (0int, 0int) || r == (0int, 0int),
    ensures
        dot(p, r) == 0,
        norms_product(p, r) == 0,
{
    assert(0 * r.0 == 0 && 0 * r.1 == 0 && p.0 * 0 == 0 && p.1 * 0 == 0) by (nonlinear_arith);
    assert(0 * norm_squared(r) == 0 && norm_squared(p) * 0 == 0) by (nonlinear_arith);
}

/// A displacement between two lattice points; wide enough for any pair.
#[derive(Clone, Copy, Debug, PartialEq, Eq, Structural)]
pub struct Offset {
    pub dx: i64,
    pub dy: i64,
}

impl View for Offset {
    type V = (int, int);

    open spec fn view(&self) -> (int, int) {
        (self.dx as int, self.dy as int)
    }
}

/// `reference` expressed relative to `player`.
pub open spec fn local_of(player: (int, int), reference: (int, int)) -> (int, int) {
    minus(reference, player)
}

/// The world point that sees `reference` at offset `local`.
pub open spec fn world_of(reference: (int, int), local: (int, int)) -> (int, int) {
    minus(reference, local)
}

/// Expresses `reference` relative to `player`.
pub fn to_local(player: Vec2, reference: Vec2) -> (local: Offset)
    ensures
        local@ == local_of(player@, reference@),
{
    Offset { dx: reference.x as i64 - player.x as i64, dy: reference.y as i64 - player.y as i64 }
}

/// Recovers the world point from which `reference` is seen at `local`, or
/// `None` when that point lies outside the lattice's range.
pub fn to_world(reference: Vec2, local: Offset) -> (world: Option<Vec2>)
    ensures
        world.is_some() <==> representable(world_of(reference@, local@)),
        world.is_some() ==> world.unwrap()@ == world_of(reference@, local@),
{
    narrow(reference.x as i128 - local.dx as i128, reference.y as i128 - local.dy as i128)
}

/// Going to local coordinates and back returns the starting point, for any
/// two points.
pub proof fn lemma_round_trip(player: (int, int), reference: (int, int))
    ensures
        world_of(reference, local_of(player, reference)) == player,
{
}

/// Executable round trip: always succeeds and returns `player` itself.
pub fn round_trip(player: Vec2, reference: Vec2) -> (back: Option<Vec2>)
    ensures
        back == Some(player),
{
    proof {
        lemma_round_trip(player@, reference@);
    }
    to_world(reference, to_local(player, reference))
}

} // verus!
