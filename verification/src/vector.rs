//! Small fixed-point vectors and a 4x4 matrix.

use crate::fixed::{clamp_to_fixed, product, scale_down, Fixed, ONE};
use vstd::prelude::*;

verus! {

/// A vector of two fixed-point components.
#[derive(Clone, Copy, Debug, PartialEq, Eq, Structural)]
pub struct Vec2 {
    pub x: Fixed,
    pub y: Fixed,
}

/// A vector of three fixed-point components.
#[derive(Clone, Copy, Debug, PartialEq, Eq, Structural)]
pub struct Vec3 {
    pub x: Fixed,
    pub y: Fixed,
    pub z: Fixed,
}

/// A vector of four fixed-point components.
#[derive(Clone, Copy, Debug, PartialEq, Eq, Structural)]
pub struct Vec4 {
    pub x: Fixed,
    pub y: Fixed,
    pub z: Fixed,
    pub w: Fixed,
}

/// A 4x4 fixed-point matrix, held by rows.
#[derive(Clone, Copy, Debug, PartialEq, Eq, Structural)]
pub struct Mat4 {
    pub r0: Vec4,
    pub r1: Vec4,
    pub r2: Vec4,
    pub r3: Vec4,
}

/// The sum `v0 * w0 + v1 * w1 + v2 * w2` of fixed-point products, rounded
/// down once and saturated.
pub open spec fn weighted_sum(v0: int, v1: int, v2: int, w: Vec3) -> int {
    clamp_to_fixed((v0 * w.x + v1 * w.y + v2 * w.z) / (ONE as int))
}

/// The dot product of two vectors, rounded down once and saturated.
pub open spec fn dot4(a: Vec4, b: Vec4) -> int {
    clamp_to_fixed((a.x * b.x + a.y * b.y + a.z * b.z + a.w * b.w) / (ONE as int))
}

/// Computes `weighted_sum`.
pub fn weigh(v0: Fixed, v1: Fixed, v2: Fixed, w: Vec3) -> (r: Fixed)
    ensures
        r == weighted_sum(v0 as int, v1 as int, v2 as int, w),
{
    scale_down(product(v0, w.x) + product(v1, w.y) + product(v2, w.z))
}

impl Vec2 {
    pub fn new(x: Fixed, y: Fixed) -> (v: Vec2)
        ensures
            v == (Vec2 { x, y }),
    {
        Vec2 { x, y }
    }

    /// The three vectors weighed component by component.
    pub open spec fn blend_spec(v0: Vec2, v1: Vec2, v2: Vec2, w: Vec3) -> Vec2 {
        Vec2 {
            x: weighted_sum(v0.x as int, v1.x as int, v2.x as int, w) as i32,
            y: weighted_sum(v0.y as int, v1.y as int, v2.y as int, w) as i32,
        }
    }

    pub fn blend(v0: Vec2, v1: Vec2, v2: Vec2, w: Vec3) -> (r: Vec2)
        ensures
            r == Vec2::blend_spec(v0, v1, v2, w),
    {
        Vec2 { x: weigh(v0.x, v1.x, v2.x, w), y: weigh(v0.y, v1.y, v2.y, w) }
    }
}

impl Vec3 {
    pub fn new(x: Fixed, y: Fixed, z: Fixed) -> (v: Vec3)
        ensures
            v == (Vec3 { x, y, z }),
    {
        Vec3 { x, y, z }
    }

    /// The first two components.
    pub fn xy(&self) -> (v: Vec2)
        ensures
            v == (Vec2 { x: self.x, y: self.y }),
    {
        Vec2 { x: self.x, y: self.y }
    }

    /// This vector with a fourth component appended.
    pub fn push(&self, w: Fixed) -> (v: Vec4)
        ensures
            v == (Vec4 { x: self.x, y: self.y, z: self.z, w }),
    {
        Vec4 { x: self.x, y: self.y, z: self.z, w }
    }

    /// The three vectors weighed component by component.
    pub open spec fn blend_spec(v0: Vec3, v1: Vec3, v2: Vec3, w: Vec3) -> Vec3 {
        Vec3 {
            x: weighted_sum(v0.x as int, v1.x as int, v2.x as int, w) as i32,
            y: weighted_sum(v0.y as int, v1.y as int, v2.y as int, w) as i32,
            z: weighted_sum(v0.z as int, v1.z as int, v2.z as int, w) as i32,
        }
    }

    pub fn blend(v0: Vec3, v1: Vec3, v2: Vec3, w: Vec3) -> (r: Vec3)
        ensures
            r == Vec3::blend_spec(v0, v1, v2, w),
    {
        Vec3 {
            x: weigh(v0.x, v1.x, v2.x, w),
            y: weigh(v0.y, v1.y, v2.y, w),
            z: weigh(v0.z, v1.z, v2.z, w),
        }
    }
}

impl Vec4 {
    pub fn new(x: Fixed, y: Fixed, z: Fixed, w: Fixed) -> (v: Vec4)
        ensures
            v == (Vec4 { x, y, z, w }),
    {
        Vec4 { x, y, z, w }
    }

    /// The first three components.
    pub fn xyz(&self) -> (v: Vec3)
        ensures
            v == (Vec3 { x: self.x, y: self.y, z: self.z }),
    {
        Vec3 { x: self.x, y: self.y, z: self.z }
    }

    /// The three vectors weighed component by component.
    pub open spec fn blend_spec(v0: Vec4, v1: Vec4, v2: Vec4, w: Vec3) -> Vec4 {
        Vec4 {
            x: weighted_sum(v0.x as int, v1.x as int, v2.x as int, w) as i32,
            y: weighted_sum(v0.y as int, v1.y as int, v2.y as int, w) as i32,
            z: weighted_sum(v0.z as int, v1.z as int, v2.z as int, w) as i32,
            w: weighted_sum(v0.w as int, v1.w as int, v2.w as int, w) as i32,
        }
    }

    pub fn blend(v0: Vec4, v1: Vec4, v2: Vec4, w: Vec3) -> (r: Vec4)
        ensures
            r == Vec4::blend_spec(v0, v1, v2, w),
    {
        Vec4 {
            x: weigh(v0.x, v1.x, v2.x, w),
            y: weigh(v0.y, v1.y, v2.y, w),
            z: weigh(v0.z, v1.z, v2.z, w),
            w: weigh(v0.w, v1.w, v2.w, w),
        }
    }

    /// Computes `dot4`.
    pub fn dot(&self, other: &Vec4) -> (r: Fixed)
        ensures
            r == dot4(*self, *other),
    {
        scale_down(
            product(self.x, other.x) + product(self.y, other.y) + product(self.z, other.z)
                + product(self.w, other.w),
        )
    }
}

impl Mat4 {
    /// The matrix with the given rows.
    pub fn new(r0: Vec4, r1: Vec4, r2: Vec4, r3: Vec4) -> (m: Mat4)
        ensures
            m == (Mat4 { r0, r1, r2, r3 }),
    {
        Mat4 { r0, r1, r2, r3 }
    }

    /// The matrix that maps every vector to itself.
    pub open spec fn identity_spec() -> Mat4 {
        Mat4 {
            r0: Vec4 { x: ONE, y: 0, z: 0, w: 0 },
            r1: Vec4 { x: 0, y: ONE, z: 0, w: 0 },
            r2: Vec4 { x: 0, y: 0, z: ONE, w: 0 },
            r3: Vec4 { x: 0, y: 0, z: 0, w: ONE },
        }
    }

    pub fn identity() -> (m: Mat4)
        ensures
            m == Mat4::identity_spec(),
    {
        Mat4 {
            r0: Vec4 { x: ONE, y: 0, z: 0, w: 0 },
            r1: Vec4 { x: 0, y: ONE, z: 0, w: 0 },
            r2: Vec4 { x: 0, y: 0, z: ONE, w: 0 },
            r3: Vec4 { x: 0, y: 0, z: 0, w: ONE },
        }
    }

    /// The product of this matrix and a column vector: each component is the
    /// dot product of a row with `v`.
    pub open spec fn transform_spec(self, v: Vec4) -> Vec4 {
        Vec4 {
            x: dot4(self.r0, v) as i32,
            y: dot4(self.r1, v) as i32,
            z: dot4(self.r2, v) as i32,
            w: dot4(self.r3, v) as i32,
        }
    }

    pub fn transform(&self, v: &Vec4) -> (r: Vec4)
        ensures
            r == self.transform_spec(*v),
    {
        Vec4 { x: self.r0.dot(v), y: self.r1.dot(v), z: self.r2.dot(v), w: self.r3.dot(v) }
    }
}

/// The identity matrix leaves every vector as it is.
pub proof fn lemma_identity_transform(v: Vec4)
    ensures
        Mat4::identity_spec().transform_spec(v) == v,
{
    let m = Mat4::identity_spec();
    assert(dot4(m.r0, v) == v.x) by {
        assert(m.r0.x * v.x + m.r0.y * v.y + m.r0.z * v.z + m.r0.w * v.w == 65536 * v.x);
    }
    assert(dot4(m.r1, v) == v.y) by {
        assert(m.r1.x * v.x + m.r1.y * v.y + m.r1.z * v.z + m.r1.w * v.w == 65536 * v.y);
    }
    assert(dot4(m.r2, v) == v.z) by {
        assert(m.r2.x * v.x + m.r2.y * v.y + m.r2.z * v.z + m.r2.w * v.w == 65536 * v.z);
    }
    assert(dot4(m.r3, v) == v.w) by {
        assert(m.r3.x * v.x + m.r3.y * v.y + m.r3.z * v.z + m.r3.w * v.w == 65536 * v.w);
    }
}

} // verus!
