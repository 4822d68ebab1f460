//! Plain geometric values: scalars, points, sizes, rectangles and transforms.

use vstd::prelude::*;

verus! {

/// Bit pattern of the single-precision number zero.
pub const ZERO_BITS: u32 = 0;

/// Bit pattern of the single-precision number one.
pub const ONE_BITS: u32 = 0x3F80_0000;

/// A single-precision IEEE 754 number, held by its bit pattern.
///
/// The library stores and moves such numbers but never computes with them,
/// so the pattern is all it needs. Two scalars are equal when their patterns
/// are.
#[derive(Clone, Copy, Debug, PartialEq, Eq, Structural)]
pub struct Scalar {
    pub bits: u32,
}

impl Scalar {
    /// The scalar with the given bit pattern.
    pub fn from_bits(bits: u32) -> (s: Scalar)
        ensures
            s.bits == bits,
    {
        Scalar { bits }
    }

    /// The bit pattern of this scalar.
    pub fn to_bits(&self) -> (bits: u32)
        ensures
            bits == self.bits,
    {
        self.bits
    }

    pub open spec fn spec_zero() -> Scalar {
        Scalar { bits: ZERO_BITS }
    }

    pub open spec fn spec_one() -> Scalar {
        Scalar { bits: ONE_BITS }
    }

    /// The number zero.
    pub fn zero() -> (s: Scalar)
        ensures
            s == Scalar::spec_zero(),
    {
        Scalar { bits: ZERO_BITS }
    }

    /// The number one.
    pub fn one() -> (s: Scalar)
        ensures
            s == Scalar::spec_one(),
    {
        Scalar { bits: ONE_BITS }
    }
}

/// A point, by its two coordinates.
#[derive(Copy, Debug, PartialEq, Eq, Structural)]
pub struct Point2D<T> {
    pub x: T,
    pub y: T,
}

impl<T: Copy> Clone for Point2D<T> {
    fn clone(&self) -> (copy: Self)
        ensures
            copy == *self,
    {
        *self
    }
}

impl<T> Point2D<T> {
    pub fn new(x: T, y: T) -> (p: Point2D<T>)
        ensures
            p.x == x,
            p.y == y,
    {
        Point2D { x, y }
    }
}

/// An extent, by its width and height.
#[derive(Copy, Debug, PartialEq, Eq, Structural)]
pub struct Size2D<T> {
    pub width: T,
    pub height: T,
}

impl<T: Copy> Clone for Size2D<T> {
    fn clone(&self) -> (copy: Self)
        ensures
            copy == *self,
    {
        *self
    }
}

impl<T> Size2D<T> {
    pub fn new(width: T, height: T) -> (s: Size2D<T>)
        ensures
            s.width == width,
            s.height == height,
    {
        Size2D { width, height }
    }
}

/// An axis-aligned rectangle, by its origin and its size.
#[derive(Copy, Debug, PartialEq, Eq, Structural)]
pub struct Rect<T> {
    pub origin: Point2D<T>,
    pub size: Size2D<T>,
}

impl<T: Copy> Clone for Rect<T> {
    fn clone(&self) -> (copy: Self)
        ensures
            copy == *self,
    {
        *self
    }
}

impl<T> Rect<T> {
    pub fn new(origin: Point2D<T>, size: Size2D<T>) -> (r: Rect<T>)
        ensures
            r.origin == origin,
            r.size == size,
    {
        Rect { origin, size }
    }
}

/// A four by four transform, row by row.
#[derive(Clone, Copy, Debug, PartialEq, Eq, Structural)]
pub struct Matrix4 {
    pub m11: Scalar, pub m12: Scalar, pub m13: Scalar, pub m14: Scalar,
    pub m21: Scalar, pub m22: Scalar, pub m23: Scalar, pub m24: Scalar,
    pub m31: Scalar, pub m32: Scalar, pub m33: Scalar, pub m34: Scalar,
    pub m41: Scalar, pub m42: Scalar, pub m43: Scalar, pub m44: Scalar,
}

impl Matrix4 {
    /// The transform that leaves every point where it is: one on the
    /// diagonal, zero elsewhere.
    pub open spec fn spec_identity() -> Matrix4 {
        let o = Scalar::spec_zero();
        let i = Scalar::spec_one();
        Matrix4 {
            m11: i, m12: o, m13: o, m14: o,
            m21: o, m22: i, m23: o, m24: o,
            m31: o, m32: o, m33: i, m34: o,
            m41: o, m42: o, m43: o, m44: i,
        }
    }
}

/// The identity transform.
pub fn identity() -> (m: Matrix4)
    ensures
        m == Matrix4::spec_identity(),
{
    let o = Scalar::zero();
    let i = Scalar::one();
    Matrix4 {
        m11: i, m12: o, m13: o, m14: o,
        m21: o, m22: i, m23: o, m24: o,
        m31: o, m32: o, m33: i, m34: o,
        m41: o, m42: o, m43: o, m44: i,
    }
}

/// A colour, by its red, green, blue and alpha parts.
#[derive(Clone, Copy, Debug, PartialEq, Eq, Structural)]
pub struct Color {
    pub r: Scalar,
    pub g: Scalar,
    pub b: Scalar,
    pub a: Scalar,
}

} // verus!
