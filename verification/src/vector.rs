//! Lattice vectors with exact arithmetic.

use vstd::prelude::*;

verus! {

/// A point or displacement on the integer lattice.
#[derive(Clone, Copy, Debug, PartialEq, Eq, Structural)]
pub struct Vec2 {
    pub x: i32,
    pub y: i32,
}

/// Component-wise sum of two mathematical vectors.
pub open spec fn plus(a: (int, int), b: (int, int)) -> (int, int) {
    (a.0 + b.0, a.1 + b.1)
}

/// Component-wise difference of two mathematical vectors.
pub open spec fn minus(a: (int, int), b: (int, int)) -> (int, int) {
    (a.0 - b.0, a.1 - b.1)
}

/// The vector pointing the opposite way.
pub open spec fn negated(a: (int, int)) -> (int, int) {
    (-a.0, -a.1)
}

/// The vector stretched by an integer factor.
pub open spec fn scaled(a: (int, int), k: int) -> (int, int) {
    (a.0 * k, a.1 * k)
}

/// Dot product.
pub open spec fn dot(a: (int, int), b: (int, int)) -> int {
    a.0 * b.0 + a.1 * b.1
}

/// Squared Euclidean length.
pub open spec fn norm_squared(a: (int, int)) -> int {
    dot(a, a)
}

/// Whether both components can be stored in a [`Vec2`].
pub open spec fn representable(a: (int, int)) -> bool {
    i32::MIN <= a.0 <= i32::MAX && i32::MIN <= a.1 <= i32::MAX
}

impl View for Vec2 {
    type V = (int, int);

    open spec fn view(&self) -> (int, int) {
        (self.x as int, self.y as int)
    }
}

/// Stores a pair of wide integers as a [`Vec2`] when both fit.
pub fn narrow(x: i128, y: i128) -> (out: Option<Vec2>)
    ensures
        out.is_some() <==> representable((x as int, y as int)),
        out.is_some() ==> out.unwrap()@ == (x as int, y as int),
{
    if x < -2147483648 || x > 2147483647 || y < -2147483648 || y > 2147483647 {
        None
    } else {
        Some(Vec2 { x: x as i32, y: y as i32 })
    }
}

impl Vec2 {
    /// The vector with the given components.
    pub fn new(x: i32, y: i32) -> (v: Vec2)
        ensures
            v@ == (x as int, y as int),
    {
        Vec2 { x, y }
    }

    /// The zero vector.
    pub fn zero() -> (v: Vec2)
        ensures
            v@ == (0int, 0int),
    {
        Vec2 { x: 0, y: 0 }
    }

    /// `self + other`, or `None` when the sum leaves the lattice's range.
    pub fn checked_add(self, other: Vec2) -> (out: Option<Vec2>)
        ensures
            out.is_some() <==> representable(plus(self@, other@)),
            out.is_some() ==> out.unwrap()@ == plus(self@, other@),
    {
        narrow(self.x as i128 + other.x as i128, self.y as i128 + other.y as i128)
    }

    /// `self - other`, or `None` when the difference leaves the lattice's range.
    pub fn checked_sub(self, other: Vec2) -> (out: Option<Vec2>)
        ensures
            out.is_some() <==> representable(minus(self@, other@)),
            out.is_some() ==> out.unwrap()@ == minus(self@, other@),
    {
        narrow(self.x as i128 - other.x as i128, self.y as i128 - other.y as i128)
    }

    /// The exact dot product of two lattice vectors.
    pub fn dot(self, other: Vec2) -> (d: i128)
        ensures
            d as int == dot(self@, other@),
    {
        let xx: i128 = wide_product(self.x as i64, other.x as i64);
        let yy: i128 = wide_product(self.y as i64, other.y as i64);
        xx + yy
    }

    /// The exact squared length of the vector.
    pub fn length_squared(self) -> (n: u64)
        ensures
            n as int == norm_squared(self@),
    {
        let d: i128 = self.dot(self);
        proof {
            lemma_square_bounds(self.x as int);
            lemma_square_bounds(self.y as int);
        }
        d as u64
    }

    /// Whether this is the zero vector.
    pub fn is_zero(self) -> (z: bool)
        ensures
            z <==> self@ == (0int, 0int),
            z <==> norm_squared(self@) == 0,
    {
        proof {
            lemma_square_bounds(self.x as int);
            lemma_square_bounds(self.y as int);
            lemma_square_zero(self.x as int);
            lemma_square_zero(self.y as int);
        }
        self.x == 0 && self.y == 0
    }
}

/// The exact product of two 64-bit integers whose magnitudes stay below 2^33.
pub(crate) fn wide_product(a: i64, b: i64) -> (p: i128)
    requires
        -0x2_0000_0000 <= a <= 0x2_0000_0000,
        -0x2_0000_0000 <= b <= 0x2_0000_0000,
    ensures
        p as int == a * b,
        -0x4_0000_0000_0000_0000 <= p <= 0x4_0000_0000_0000_0000,
{
    proof {
        lemma_product_bounds(a as int, b as int, 0x2_0000_0000);
    }
    (a as i128) * (b as i128)
}

/// A product is bounded by the square of a common bound on its factors.
pub(crate) proof fn lemma_product_bounds(a: int, b: int, m: int)
    by (nonlinear_arith)
    requires
        -m <= a <= m,
        -m <= b <= m,
    ensures
        -(m * m) <= a * b <= m * m,
{
}

/// The square of a 32-bit integer is non-negative and at most 2^62.
pub(crate) proof fn lemma_square_bounds(a: int)
    by (nonlinear_arith)
    requires
        -0x8000_0000 <= a <= 0x8000_0000,
    ensures
        0 <= a * a <= 0x4000_0000_0000_0000,
{
}

/// A square is never negative.
pub(crate) proof fn lemma_square_nonnegative(a: int)
    by (nonlinear_arith)
    ensures
        0 <= a * a,
{
}

/// Only zero has a zero square.
pub(crate) proof fn lemma_square_zero(a: int)
    by (nonlinear_arith)
    ensures
        a * a == 0 <==> a == 0,
{
}

} // verus!
