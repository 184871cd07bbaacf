//! Scalars and small vectors as they are stored in GPU-visible memory.
//!
//! A [`Scalar`] is an IEEE-754 single-precision number held by its 32-bit
//! pattern. The renderer core moves such values around and compares them; it
//! never does arithmetic on them. Comparisons follow IEEE-754: every
//! comparison with a NaN is false and the two zeros compare equal.
use vstd::prelude::*;

verus! {

/// A single-precision value, identified by its bit pattern.
#[derive(Clone, Copy, Debug, PartialEq, Eq, Structural)]
pub struct Scalar {
    pub bits: u32,
}

/// The sign bit of a pattern.
pub const SIGN_BIT: u32 = 0x8000_0000;

/// The bit pattern of positive infinity. A pattern whose magnitude is
/// larger encodes a NaN.
pub const INFINITY_BITS: u32 = 0x7f80_0000;

/// The bit pattern of zero.
pub const ZERO: u32 = 0;

/// The bit pattern of one.
pub const ONE: u32 = 0x3f80_0000;

/// The bit pattern of minus one.
pub const NEG_ONE: u32 = 0xbf80_0000;

/// The bit pattern of a half.
pub const HALF: u32 = 0x3f00_0000;

/// The bit pattern of minus a half.
pub const NEG_HALF: u32 = 0xbf00_0000;

impl Scalar {
    /// The pattern without its sign bit.
    pub open spec fn magnitude(self) -> int {
        if self.bits >= SIGN_BIT {
            self.bits - SIGN_BIT
        } else {
            self.bits as int
        }
    }

    /// Whether the sign bit is set.
    pub open spec fn is_negative(self) -> bool {
        self.bits >= SIGN_BIT
    }

    /// Whether the pattern encodes a NaN.
    pub open spec fn is_nan(self) -> bool {
        self.magnitude() > INFINITY_BITS
    }

    /// A number that orders the non-NaN patterns as IEEE-754 orders the
    /// values they encode; both zeros map to 0.
    pub open spec fn rank(self) -> int {
        if self.is_negative() {
            -self.magnitude()
        } else {
            self.magnitude()
        }
    }

    /// IEEE-754 `<`.
    pub open spec fn lt(self, other: Scalar) -> bool {
        !self.is_nan() && !other.is_nan() && self.rank() < other.rank()
    }

    /// IEEE-754 `<=`.
    pub open spec fn le(self, other: Scalar) -> bool {
        !self.is_nan() && !other.is_nan() && self.rank() <= other.rank()
    }

    /// IEEE-754 `==`.
    pub open spec fn same_value(self, other: Scalar) -> bool {
        !self.is_nan() && !other.is_nan() && self.rank() == other.rank()
    }

    /// The value with the opposite sign: the pattern with its sign bit
    /// flipped.
    pub open spec fn negated(self) -> Scalar {
        Scalar {
            bits: if self.bits >= SIGN_BIT {
                (self.bits - SIGN_BIT) as u32
            } else {
                (self.bits + SIGN_BIT) as u32
            },
        }
    }

    /// The product of the value and the sign of `by`, where the sign of a
    /// number is one or minus one as its sign bit says, and a NaN's sign
    /// is a NaN: the value itself, the value negated, or a NaN.
    pub open spec fn times_sign_of(self, by: Scalar) -> Scalar {
        if by.is_nan() {
            by
        } else if by.is_negative() {
            self.negated()
        } else {
            self
        }
    }

    /// Whether the value lies between zero and one, both included.
    pub open spec fn in_unit_interval(self) -> bool {
        (Scalar { bits: 0 }).le(self) && self.le(Scalar { bits: 0x3f80_0000 })
    }

    pub fn from_bits(bits: u32) -> (s: Scalar)
        ensures
            s.bits == bits,
    {
        Scalar { bits }
    }

    pub fn to_bits(self) -> (bits: u32)
        ensures
            bits == self.bits,
    {
        self.bits
    }

    /// Positive zero.
    pub fn zero() -> (s: Scalar)
        ensures
            s.bits == ZERO,
    {
        Scalar { bits: ZERO }
    }

    /// The value one.
    pub fn one() -> (s: Scalar)
        ensures
            s.bits == ONE,
    {
        Scalar { bits: ONE }
    }

    fn magnitude_bits(self) -> (m: u32)
        ensures
            m == self.magnitude(),
    {
        if self.bits >= SIGN_BIT {
            self.bits - SIGN_BIT
        } else {
            self.bits
        }
    }

    pub fn check_nan(self) -> (r: bool)
        ensures
            r == self.is_nan(),
    {
        self.magnitude_bits() > INFINITY_BITS
    }

    fn rank_value(self) -> (r: i64)
        ensures
            r == self.rank(),
    {
        let m: i64 = self.magnitude_bits() as i64;
        if self.bits >= SIGN_BIT {
            -m
        } else {
            m
        }
    }

    pub fn less_than(self, other: Scalar) -> (r: bool)
        ensures
            r == self.lt(other),
    {
        !self.check_nan() && !other.check_nan() && self.rank_value() < other.rank_value()
    }

    pub fn less_or_equal(self, other: Scalar) -> (r: bool)
        ensures
            r == self.le(other),
    {
        !self.check_nan() && !other.check_nan() && self.rank_value() <= other.rank_value()
    }

    /// Computes `negated`.
    pub fn negate(self) -> (r: Scalar)
        ensures
            r == self.negated(),
    {
        Scalar {
            bits: if self.bits >= SIGN_BIT {
                self.bits - SIGN_BIT
            } else {
                self.bits + SIGN_BIT
            },
        }
    }

    /// Computes `times_sign_of`.
    pub fn multiply_by_sign_of(self, by: Scalar) -> (r: Scalar)
        ensures
            r == self.times_sign_of(by),
    {
        if by.check_nan() {
            by
        } else if by.bits >= SIGN_BIT {
            self.negate()
        } else {
            self
        }
    }

    pub fn is_in_unit_interval(self) -> (r: bool)
        ensures
            r == self.in_unit_interval(),
    {
        Scalar::zero().less_or_equal(self) && self.less_or_equal(Scalar::one())
    }

    pub fn equals_value(self, other: Scalar) -> (r: bool)
        ensures
            r == self.same_value(other),
    {
        !self.check_nan() && !other.check_nan() && self.rank_value() == other.rank_value()
    }
}

/// Two scalars.
#[derive(Clone, Copy, Debug, PartialEq, Eq, Structural)]
pub struct Vec2 {
    pub x: Scalar,
    pub y: Scalar,
}

/// Three scalars: a position, a direction or a colour.
#[derive(Clone, Copy, Debug, PartialEq, Eq, Structural)]
pub struct Vec3 {
    pub x: Scalar,
    pub y: Scalar,
    pub z: Scalar,
}

/// Four scalars: one 16-byte slot of a uniform block.
#[derive(Clone, Copy, Debug, PartialEq, Eq, Structural)]
pub struct Vec4 {
    pub x: Scalar,
    pub y: Scalar,
    pub z: Scalar,
    pub w: Scalar,
}

/// A rotation as a quaternion.
#[derive(Clone, Copy, Debug, PartialEq, Eq, Structural)]
pub struct Quat {
    pub x: Scalar,
    pub y: Scalar,
    pub z: Scalar,
    pub w: Scalar,
}

/// A 4x4 matrix stored by columns.
#[derive(Clone, Copy, Debug, PartialEq, Eq, Structural)]
pub struct Mat4 {
    pub x_axis: Vec4,
    pub y_axis: Vec4,
    pub z_axis: Vec4,
    pub w_axis: Vec4,
}

impl Vec2 {
    pub fn new(x: Scalar, y: Scalar) -> (v: Vec2)
        ensures
            v == (Vec2 { x, y }),
    {
        Vec2 { x, y }
    }
}

impl Vec3 {
    pub fn new(x: Scalar, y: Scalar, z: Scalar) -> (v: Vec3)
        ensures
            v == (Vec3 { x, y, z }),
    {
        Vec3 { x, y, z }
    }

    /// All three lanes are positive zero.
    pub fn zero() -> (v: Vec3)
        ensures
            v == Vec3::splat_spec(0),
    {
        Vec3 { x: Scalar::zero(), y: Scalar::zero(), z: Scalar::zero() }
    }

    /// The vector whose three lanes all hold `bits`.
    pub open spec fn splat_spec(bits: u32) -> Vec3 {
        Vec3 { x: Scalar { bits }, y: Scalar { bits }, z: Scalar { bits } }
    }

    /// All three lanes hold `s`.
    pub fn splat(s: Scalar) -> (v: Vec3)
        ensures
            v == Vec3::splat_spec(s.bits),
    {
        Vec3 { x: s, y: s, z: s }
    }

    /// IEEE-754 equality, lane by lane.
    pub open spec fn same_value(self, other: Vec3) -> bool {
        self.x.same_value(other.x) && self.y.same_value(other.y) && self.z.same_value(other.z)
    }

    pub fn equals_value(self, other: Vec3) -> (r: bool)
        ensures
            r == self.same_value(other),
    {
        self.x.equals_value(other.x) && self.y.equals_value(other.y) && self.z.equals_value(
            other.z,
        )
    }
}

impl Vec4 {
    pub fn new(x: Scalar, y: Scalar, z: Scalar, w: Scalar) -> (v: Vec4)
        ensures
            v == (Vec4 { x, y, z, w }),
    {
        Vec4 { x, y, z, w }
    }

    /// All four lanes are positive zero.
    pub fn zero() -> (v: Vec4)
        ensures
            v == Vec4::zero_spec(),
    {
        Vec4 { x: Scalar::zero(), y: Scalar::zero(), z: Scalar::zero(), w: Scalar::zero() }
    }

    pub open spec fn zero_spec() -> Vec4 {
        Vec4 {
            x: Scalar { bits: 0 },
            y: Scalar { bits: 0 },
            z: Scalar { bits: 0 },
            w: Scalar { bits: 0 },
        }
    }
}

impl Quat {
    pub fn new(x: Scalar, y: Scalar, z: Scalar, w: Scalar) -> (q: Quat)
        ensures
            q == (Quat { x, y, z, w }),
    {
        Quat { x, y, z, w }
    }

    /// The rotation that leaves every vector in place: `(0, 0, 0, 1)`.
    pub fn identity() -> (q: Quat)
        ensures
            q == Quat::identity_spec(),
    {
        Quat { x: Scalar::zero(), y: Scalar::zero(), z: Scalar::zero(), w: Scalar::one() }
    }

    pub open spec fn identity_spec() -> Quat {
        Quat {
            x: Scalar { bits: 0 },
            y: Scalar { bits: 0 },
            z: Scalar { bits: 0 },
            w: Scalar { bits: 0x3f80_0000 },
        }
    }
}

impl Mat4 {
    pub fn from_cols(x_axis: Vec4, y_axis: Vec4, z_axis: Vec4, w_axis: Vec4) -> (m: Mat4)
        ensures
            m == (Mat4 { x_axis, y_axis, z_axis, w_axis }),
    {
        Mat4 { x_axis, y_axis, z_axis, w_axis }
    }

    /// The identity transform.
    pub fn identity() -> (m: Mat4)
        ensures
            m == Mat4::identity_spec(),
    {
        let o: Scalar = Scalar::zero();
        let i: Scalar = Scalar::one();
        Mat4 {
            x_axis: Vec4 { x: i, y: o, z: o, w: o },
            y_axis: Vec4 { x: o, y: i, z: o, w: o },
            z_axis: Vec4 { x: o, y: o, z: i, w: o },
            w_axis: Vec4 { x: o, y: o, z: o, w: i },
        }
    }

    pub open spec fn identity_spec() -> Mat4 {
        let o = Scalar { bits: 0 };
        let i = Scalar { bits: 0x3f80_0000 };
        Mat4 {
            x_axis: Vec4 { x: i, y: o, z: o, w: o },
            y_axis: Vec4 { x: o, y: i, z: o, w: o },
            z_axis: Vec4 { x: o, y: o, z: i, w: o },
            w_axis: Vec4 { x: o, y: o, z: o, w: i },
        }
    }

    /// Every lane is positive zero.
    pub fn zero() -> (m: Mat4)
        ensures
            m == Mat4::zero_spec(),
    {
        Mat4 { x_axis: Vec4::zero(), y_axis: Vec4::zero(), z_axis: Vec4::zero(), w_axis: Vec4::zero() }
    }

    pub open spec fn zero_spec() -> Mat4 {
        Mat4 {
            x_axis: Vec4::zero_spec(),
            y_axis: Vec4::zero_spec(),
            z_axis: Vec4::zero_spec(),
            w_axis: Vec4::zero_spec(),
        }
    }
}

} // verus!
