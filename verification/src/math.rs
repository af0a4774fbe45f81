//! Fixed-point scalar and matrix arithmetic shared by the scene graph and the
//! terrain subsystem.
//!
//! Coordinates are `i64` fixed-point samples. Sums and products that would
//! leave the representable range saturate at `i64::MIN` / `i64::MAX`; the spec
//! function [`sat64`] is the single definition of that clamping.

use vstd::prelude::*;

verus! {

/// Clamps a mathematical integer into the `i64` range.
pub open spec fn sat64(x: int) -> int {
    if x < i64::MIN as int {
        i64::MIN as int
    } else if x > i64::MAX as int {
        i64::MAX as int
    } else {
        x
    }
}

/// Saturating addition on fixed-point scalars.
pub fn sat_add(a: i64, b: i64) -> (r: i64)
    ensures
        r as int == sat64(a + b),
{
    let s: i128 = a as i128 + b as i128;
    if s < i64::MIN as i128 {
        i64::MIN
    } else if s > i64::MAX as i128 {
        i64::MAX
    } else {
        s as i64
    }
}

/// Saturating subtraction on fixed-point scalars.
pub fn sat_sub(a: i64, b: i64) -> (r: i64)
    ensures
        r as int == sat64(a - b),
{
    let s: i128 = a as i128 - b as i128;
    if s < i64::MIN as i128 {
        i64::MIN
    } else if s > i64::MAX as i128 {
        i64::MAX
    } else {
        s as i64
    }
}

/// Saturating multiplication on fixed-point scalars.
pub fn sat_mul(a: i64, b: i64) -> (r: i64)
    ensures
        r as int == sat64(a * b),
{
    proof {
        assert(i64::MIN as int * i64::MIN as int <= i128::MAX as int);
        assert((a as int) * (b as int) <= i128::MAX as int && i128::MIN as int <= (a as int) * (
        b as int)) by (nonlinear_arith)
            requires
                i64::MIN <= a <= i64::MAX,
                i64::MIN <= b <= i64::MAX,
        ;
    }
    let p: i128 = a as i128 * b as i128;
    if p < i64::MIN as i128 {
        i64::MIN
    } else if p > i64::MAX as i128 {
        i64::MAX
    } else {
        p as i64
    }
}

/// A three-component fixed-point vector.
#[derive(Clone, Copy, Debug, PartialEq, Eq, Structural)]
pub struct Vector3 {
    pub x: i64,
    pub y: i64,
    pub z: i64,
}

impl Vector3 {
    /// Builds a vector from its components.
    pub fn new(x: i64, y: i64, z: i64) -> (r: Vector3)
        ensures
            r == (Vector3 { x, y, z }),
    {
        Vector3 { x, y, z }
    }
}

/// A two-component fixed-point vector, used for texture coordinates held in
/// thousandths of a texture unit.
#[derive(Clone, Copy, Debug, PartialEq, Eq, Structural)]
pub struct Vector2 {
    pub x: i64,
    pub y: i64,
}

/// Saturated four-term dot product of a matrix row with a matrix column.
pub open spec fn sdot(a0: i64, b0: i64, a1: i64, b1: i64, a2: i64, b2: i64, a3: i64, b3: i64) -> int {
    sat64(sat64(sat64(sat64(a0 * b0) + sat64(a1 * b1)) + sat64(a2 * b2)) + sat64(a3 * b3))
}

/// A 4x4 fixed-point transform matrix, row major: `mRC` is the entry at row
/// `R`, column `C`. The translation lives in column 3.
#[derive(Clone, Copy, Debug, PartialEq, Eq, Structural)]
pub struct Mat4 {
    pub m00: i64, pub m01: i64, pub m02: i64, pub m03: i64,
    pub m10: i64, pub m11: i64, pub m12: i64, pub m13: i64,
    pub m20: i64, pub m21: i64, pub m22: i64, pub m23: i64,
    pub m30: i64, pub m31: i64, pub m32: i64, pub m33: i64,
}

/// Composition of two transforms: the usual matrix product, with every
/// addition and multiplication saturated at the `i64` range.
pub open spec fn spec_mat_mul(a: Mat4, b: Mat4) -> Mat4 {
    Mat4 {
        m00: sdot(a.m00, b.m00, a.m01, b.m10, a.m02, b.m20, a.m03, b.m30) as i64,
        m01: sdot(a.m00, b.m01, a.m01, b.m11, a.m02, b.m21, a.m03, b.m31) as i64,
        m02: sdot(a.m00, b.m02, a.m01, b.m12, a.m02, b.m22, a.m03, b.m32) as i64,
        m03: sdot(a.m00, b.m03, a.m01, b.m13, a.m02, b.m23, a.m03, b.m33) as i64,
        m10: sdot(a.m10, b.m00, a.m11, b.m10, a.m12, b.m20, a.m13, b.m30) as i64,
        m11: sdot(a.m10, b.m01, a.m11, b.m11, a.m12, b.m21, a.m13, b.m31) as i64,
        m12: sdot(a.m10, b.m02, a.m11, b.m12, a.m12, b.m22, a.m13, b.m32) as i64,
        m13: sdot(a.m10, b.m03, a.m11, b.m13, a.m12, b.m23, a.m13, b.m33) as i64,
        m20: sdot(a.m20, b.m00, a.m21, b.m10, a.m22, b.m20, a.m23, b.m30) as i64,
        m21: sdot(a.m20, b.m01, a.m21, b.m11, a.m22, b.m21, a.m23, b.m31) as i64,
        m22: sdot(a.m20, b.m02, a.m21, b.m12, a.m22, b.m22, a.m23, b.m32) as i64,
        m23: sdot(a.m20, b.m03, a.m21, b.m13, a.m22, b.m23, a.m23, b.m33) as i64,
        m30: sdot(a.m30, b.m00, a.m31, b.m10, a.m32, b.m20, a.m33, b.m30) as i64,
        m31: sdot(a.m30, b.m01, a.m31, b.m11, a.m32, b.m21, a.m33, b.m31) as i64,
        m32: sdot(a.m30, b.m02, a.m31, b.m12, a.m32, b.m22, a.m33, b.m32) as i64,
        m33: sdot(a.m30, b.m03, a.m31, b.m13, a.m32, b.m23, a.m33, b.m33) as i64,
    }
}

/// One saturated row-times-column term of the matrix product.
fn dot4(a0: i64, b0: i64, a1: i64, b1: i64, a2: i64, b2: i64, a3: i64, b3: i64) -> (r: i64)
    ensures
        r as int == sdot(a0, b0, a1, b1, a2, b2, a3, b3),
{
    sat_add(sat_add(sat_add(sat_mul(a0, b0), sat_mul(a1, b1)), sat_mul(a2, b2)), sat_mul(a3, b3))
}

impl Mat4 {
    /// The identity transform.
    pub open spec fn spec_identity() -> Mat4 {
        Mat4 {
            m00: 1, m01: 0, m02: 0, m03: 0,
            m10: 0, m11: 1, m12: 0, m13: 0,
            m20: 0, m21: 0, m22: 1, m23: 0,
            m30: 0, m31: 0, m32: 0, m33: 1,
        }
    }

    /// Builds the identity transform.
    pub fn identity() -> (r: Mat4)
        ensures
            r == Mat4::spec_identity(),
    {
        Mat4 {
            m00: 1, m01: 0, m02: 0, m03: 0,
            m10: 0, m11: 1, m12: 0, m13: 0,
            m20: 0, m21: 0, m22: 1, m23: 0,
            m30: 0, m31: 0, m32: 0, m33: 1,
        }
    }

    /// Builds a pure translation transform.
    pub fn translation(v: Vector3) -> (r: Mat4)
        ensures
            r == (Mat4 { m03: v.x, m13: v.y, m23: v.z, ..Mat4::spec_identity() }),
    {
        Mat4 {
            m00: 1, m01: 0, m02: 0, m03: v.x,
            m10: 0, m11: 1, m12: 0, m13: v.y,
            m20: 0, m21: 0, m22: 1, m23: v.z,
            m30: 0, m31: 0, m32: 0, m33: 1,
        }
    }

    /// Composes two transforms (`self * other`), saturating instead of
    /// overflowing.
    pub fn mul(&self, other: &Mat4) -> (r: Mat4)
        ensures
            r == spec_mat_mul(*self, *other),
    {
        let a = self;
        let b = other;
        Mat4 {
            m00: dot4(a.m00, b.m00, a.m01, b.m10, a.m02, b.m20, a.m03, b.m30),
            m01: dot4(a.m00, b.m01, a.m01, b.m11, a.m02, b.m21, a.m03, b.m31),
            m02: dot4(a.m00, b.m02, a.m01, b.m12, a.m02, b.m22, a.m03, b.m32),
            m03: dot4(a.m00, b.m03, a.m01, b.m13, a.m02, b.m23, a.m03, b.m33),
            m10: dot4(a.m10, b.m00, a.m11, b.m10, a.m12, b.m20, a.m13, b.m30),
            m11: dot4(a.m10, b.m01, a.m11, b.m11, a.m12, b.m21, a.m13, b.m31),
            m12: dot4(a.m10, b.m02, a.m11, b.m12, a.m12, b.m22, a.m13, b.m32),
            m13: dot4(a.m10, b.m03, a.m11, b.m13, a.m12, b.m23, a.m13, b.m33),
            m20: dot4(a.m20, b.m00, a.m21, b.m10, a.m22, b.m20, a.m23, b.m30),
            m21: dot4(a.m20, b.m01, a.m21, b.m11, a.m22, b.m21, a.m23, b.m31),
            m22: dot4(a.m20, b.m02, a.m21, b.m12, a.m22, b.m22, a.m23, b.m32),
            m23: dot4(a.m20, b.m03, a.m21, b.m13, a.m22, b.m23, a.m23, b.m33),
            m30: dot4(a.m30, b.m00, a.m31, b.m10, a.m32, b.m20, a.m33, b.m30),
            m31: dot4(a.m30, b.m01, a.m31, b.m11, a.m32, b.m21, a.m33, b.m31),
            m32: dot4(a.m30, b.m02, a.m31, b.m12, a.m32, b.m22, a.m33, b.m32),
            m33: dot4(a.m30, b.m03, a.m31, b.m13, a.m32, b.m23, a.m33, b.m33),
        }
    }

    /// The translation carried by a transform.
    pub open spec fn spec_position(self) -> Vector3 {
        Vector3 { x: self.m03, y: self.m13, z: self.m23 }
    }

    /// Returns the translation part of the transform.
    pub fn position(&self) -> (r: Vector3)
        ensures
            r == self.spec_position(),
    {
        Vector3 { x: self.m03, y: self.m13, z: self.m23 }
    }

    /// Returns the side (local X axis) basis vector.
    pub fn side(&self) -> (r: Vector3)
        ensures
            r == (Vector3 { x: self.m00, y: self.m10, z: self.m20 }),
    {
        Vector3 { x: self.m00, y: self.m10, z: self.m20 }
    }

    /// Returns the up (local Y axis) basis vector.
    pub fn up(&self) -> (r: Vector3)
        ensures
            r == (Vector3 { x: self.m01, y: self.m11, z: self.m21 }),
    {
        Vector3 { x: self.m01, y: self.m11, z: self.m21 }
    }

    /// Returns the look (local Z axis) basis vector.
    pub fn look(&self) -> (r: Vector3)
        ensures
            r == (Vector3 { x: self.m02, y: self.m12, z: self.m22 }),
    {
        Vector3 { x: self.m02, y: self.m12, z: self.m22 }
    }
}

/// An axis-aligned screen-space rectangle, in pixels.
#[derive(Clone, Copy, Debug, PartialEq, Eq, Structural)]
pub struct Rect {
    pub x: i32,
    pub y: i32,
    pub w: i32,
    pub h: i32,
}

impl Rect {
    /// Builds a rectangle from its origin and extents.
    pub fn new(x: i32, y: i32, w: i32, h: i32) -> (r: Rect)
        ensures
            r == (Rect { x, y, w, h }),
    {
        Rect { x, y, w, h }
    }

    /// Whether the point `(px, py)` lies inside the rectangle.
    pub open spec fn contains(self, px: int, py: int) -> bool {
        &&& self.x <= px < self.x + self.w
        &&& self.y <= py < self.y + self.h
    }
}

/// An axis-aligned bounding box in world space.
#[derive(Clone, Copy, Debug, PartialEq, Eq, Structural)]
pub struct AxisAlignedBoundingBox {
    pub min: Vector3,
    pub max: Vector3,
}

impl AxisAlignedBoundingBox {
    /// Builds a bounding box from its two corners.
    pub fn from_min_max(min: Vector3, max: Vector3) -> (r: AxisAlignedBoundingBox)
        ensures
            r == (AxisAlignedBoundingBox { min, max }),
    {
        AxisAlignedBoundingBox { min, max }
    }
}

} // verus!
