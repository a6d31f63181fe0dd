//! Points and displacements on an integer grid of millimetres.

use vstd::prelude::*;

verus! {

/// The length that stands for one unit of the world: a thousand millimetres.
pub const UNIT: i64 = 1000;

/// A position in the world, in millimetres.
#[derive(Clone, Copy, PartialEq, Eq, Structural, Hash, Debug)]
pub struct Point3 {
    pub x: i32,
    pub y: i32,
    pub z: i32,
}

/// A displacement between two positions, in millimetres.
#[derive(Clone, Copy, PartialEq, Eq, Structural, Hash, Debug)]
pub struct Vector3 {
    pub x: i64,
    pub y: i64,
    pub z: i64,
}

/// A rotation, as the four components of a unit quaternion in millionths.
#[derive(Clone, Copy, PartialEq, Eq, Structural, Hash, Debug)]
pub struct Orientation {
    pub i: i32,
    pub j: i32,
    pub k: i32,
    pub w: i32,
}

/// The square of a signed number, which always fits in 128 bits.
pub fn square(v: i64) -> (r: u128)
    ensures
        r == v * v,
{
    let a: u128 = if v < 0 {
        (-(v as i128)) as u128
    } else {
        v as u128
    };
    assert(a * a == v * v) by (nonlinear_arith)
        requires
            a == v || a == -v,
    ;
    assert(a * a <= 0x4000_0000_0000_0000_0000_0000_0000_0000) by (nonlinear_arith)
        requires
            0 <= a <= 0x8000_0000_0000_0000,
    ;
    a * a
}

impl Vector3 {
    /// The displacement of one unit along the z axis: where a bot looks when
    /// it has nothing to look at.
    pub open spec fn spec_forward() -> Vector3 {
        Vector3 { x: 0, y: 0, z: UNIT }
    }

    pub fn forward() -> (v: Vector3)
        ensures
            v == Self::spec_forward(),
    {
        Vector3 { x: 0, y: 0, z: UNIT }
    }

    /// The squared Euclidean length.
    pub open spec fn spec_norm_squared(self) -> int {
        self.x * self.x + self.y * self.y + self.z * self.z
    }

    pub fn norm_squared(self) -> (r: u128)
        ensures
            r == self.spec_norm_squared(),
    {
        let xx = square(self.x);
        let yy = square(self.y);
        let zz = square(self.z);
        assert(xx <= 0x4000_0000_0000_0000_0000_0000_0000_0000) by (nonlinear_arith)
            requires
                xx == self.x * self.x,
                -0x8000_0000_0000_0000 <= self.x <= 0x8000_0000_0000_0000,
        ;
        assert(yy <= 0x4000_0000_0000_0000_0000_0000_0000_0000) by (nonlinear_arith)
            requires
                yy == self.y * self.y,
                -0x8000_0000_0000_0000 <= self.y <= 0x8000_0000_0000_0000,
        ;
        assert(zz <= 0x4000_0000_0000_0000_0000_0000_0000_0000) by (nonlinear_arith)
            requires
                zz == self.z * self.z,
                -0x8000_0000_0000_0000 <= self.z <= 0x8000_0000_0000_0000,
        ;
        xx + yy + zz
    }

    /// A displacement is degenerate when it has no length, and so no direction.
    pub open spec fn spec_is_degenerate(self) -> bool {
        self.x == 0 && self.y == 0 && self.z == 0
    }

    pub fn is_degenerate(self) -> (r: bool)
        ensures
            r == self.spec_is_degenerate(),
    {
        self.x == 0 && self.y == 0 && self.z == 0
    }

    /// Only the degenerate displacement has length zero.
    pub proof fn lemma_degenerate_iff_no_length(self)
        ensures
            self.spec_is_degenerate() <==> self.spec_norm_squared() == 0,
    {
        assert(self.x * self.x >= 0 && (self.x * self.x == 0 ==> self.x == 0))
            by (nonlinear_arith);
        assert(self.y * self.y >= 0 && (self.y * self.y == 0 ==> self.y == 0))
            by (nonlinear_arith);
        assert(self.z * self.z >= 0 && (self.z * self.z == 0 ==> self.z == 0))
            by (nonlinear_arith);
    }
}

impl Point3 {
    /// The displacement that leads from `self` to `to`.
    pub open spec fn spec_vector_to(self, to: Point3) -> Vector3 {
        Vector3 {
            x: (to.x - self.x) as i64,
            y: (to.y - self.y) as i64,
            z: (to.z - self.z) as i64,
        }
    }

    pub fn vector_to(self, to: Point3) -> (v: Vector3)
        ensures
            v == self.spec_vector_to(to),
            v.x == to.x - self.x,
            v.y == to.y - self.y,
            v.z == to.z - self.z,
    {
        Vector3 {
            x: to.x as i64 - self.x as i64,
            y: to.y as i64 - self.y as i64,
            z: to.z as i64 - self.z as i64,
        }
    }

    /// The squared straight-line distance between two positions.
    pub open spec fn spec_distance_squared(self, to: Point3) -> int {
        (to.x - self.x) * (to.x - self.x) + (to.y - self.y) * (to.y - self.y) + (to.z - self.z)
            * (to.z - self.z)
    }

    pub fn distance_squared(self, to: Point3) -> (r: u128)
        ensures
            r == self.spec_distance_squared(to),
    {
        self.vector_to(to).norm_squared()
    }

    /// Distance does not depend on the direction in which it is measured,
    /// and is zero exactly between a position and itself.
    pub proof fn lemma_distance_symmetric(self, to: Point3)
        ensures
            self.spec_distance_squared(to) == to.spec_distance_squared(self),
            self.spec_distance_squared(to) >= 0,
            self.spec_distance_squared(to) == 0 <==> self == to,
    {
        let v = self.spec_vector_to(to);
        v.lemma_degenerate_iff_no_length();
        assert((to.x - self.x) * (to.x - self.x) == (self.x - to.x) * (self.x - to.x))
            by (nonlinear_arith);
        assert((to.y - self.y) * (to.y - self.y) == (self.y - to.y) * (self.y - to.y))
            by (nonlinear_arith);
        assert((to.z - self.z) * (to.z - self.z) == (self.z - to.z) * (self.z - to.z))
            by (nonlinear_arith);
        assert((to.x - self.x) * (to.x - self.x) >= 0) by (nonlinear_arith);
        assert((to.y - self.y) * (to.y - self.y) >= 0) by (nonlinear_arith);
        assert((to.z - self.z) * (to.z - self.z) >= 0) by (nonlinear_arith);
    }
}

} // verus!
