//! Instance placements and the degenerate-rotation rule.
//!
//! The core never evaluates floating-point arithmetic; every scalar here is an
//! IEEE-754 single-precision bit pattern carried as a `u32`. The host layer
//! turns these bit patterns into its vector and quaternion types verbatim, so
//! everything the core decides about them (zero tests, identity choices,
//! equality) transfers bit-for-bit to the rendered transforms.

use vstd::prelude::*;

verus! {

/// The bit pattern of `1.0` in IEEE-754 single precision.
pub const F32_ONE_BITS: u32 = 0x3F80_0000;

/// The bit pattern of `-0.0` in IEEE-754 single precision.
pub const F32_NEG_ZERO_BITS: u32 = 0x8000_0000;

/// True of the two IEEE-754 single-precision encodings of zero (`+0.0` and
/// `-0.0`): exactly the values a floating-point comparison with zero accepts.
pub open spec fn f32_bits_is_zero(bits: u32) -> bool {
    bits == 0u32 || bits == 0x8000_0000u32
}

/// A 3-component vector of IEEE-754 single-precision bit patterns.
#[derive(Clone, Copy, Debug, PartialEq, Eq, Structural)]
pub struct Vec3Bits {
    pub x: u32,
    pub y: u32,
    pub z: u32,
}

impl Vec3Bits {
    /// True when every component encodes a floating-point zero.
    pub open spec fn is_zero_vector(self) -> bool {
        f32_bits_is_zero(self.x) && f32_bits_is_zero(self.y) && f32_bits_is_zero(self.z)
    }

    pub fn new(x: u32, y: u32, z: u32) -> (r: Vec3Bits)
        ensures
            r == (Vec3Bits { x, y, z }),
    {
        Vec3Bits { x, y, z }
    }

    /// The vector whose components all encode `+0.0`.
    pub fn zero() -> (r: Vec3Bits)
        ensures
            r == (Vec3Bits { x: 0u32, y: 0u32, z: 0u32 }),
            r.is_zero_vector(),
    {
        Vec3Bits { x: 0, y: 0, z: 0 }
    }

    /// Decides whether the encoded vector is exactly the zero vector, the way
    /// a floating-point comparison would: both signs of zero count.
    pub fn is_zero(&self) -> (r: bool)
        ensures
            r == self.is_zero_vector(),
    {
        (self.x == 0 || self.x == F32_NEG_ZERO_BITS) && (self.y == 0 || self.y
            == F32_NEG_ZERO_BITS) && (self.z == 0 || self.z == F32_NEG_ZERO_BITS)
    }
}

/// A quaternion of IEEE-754 single-precision bit patterns, scalar part last.
#[derive(Clone, Copy, Debug, PartialEq, Eq, Structural)]
pub struct QuatBits {
    pub x: u32,
    pub y: u32,
    pub z: u32,
    pub w: u32,
}

impl QuatBits {
    /// The identity rotation: zero vector part and unit scalar part. This is
    /// bit-for-bit the quaternion a rotation of angle zero about any axis
    /// produces, since `sin 0` is exactly `+0.0` and `cos 0` exactly `1.0`.
    pub open spec fn identity_spec() -> QuatBits {
        QuatBits { x: 0u32, y: 0u32, z: 0u32, w: F32_ONE_BITS }
    }

    pub fn identity() -> (r: QuatBits)
        ensures
            r == QuatBits::identity_spec(),
    {
        QuatBits { x: 0, y: 0, z: 0, w: F32_ONE_BITS }
    }

    pub fn new(x: u32, y: u32, z: u32, w: u32) -> (r: QuatBits)
        ensures
            r == (QuatBits { x, y, z, w }),
    {
        QuatBits { x, y, z, w }
    }
}

/// One placement of a model: a position and a rotation. A model's instance
/// buffer is rebuilt from a list of these; each one becomes a raw 4x4
/// transform equal to the translation by `position` composed with the
/// rotation by `rotation`.
#[derive(Clone, Copy, Debug, PartialEq, Eq, Structural)]
pub struct Instance {
    pub position: Vec3Bits,
    pub rotation: QuatBits,
}

impl Instance {
    pub fn new(position: Vec3Bits, rotation: QuatBits) -> (r: Instance)
        ensures
            r == (Instance { position, rotation }),
    {
        Instance { position, rotation }
    }
}

/// The rotation an instance is to receive, as decided by the core: either the
/// identity, or a rotation of a given angle (an IEEE-754 single-precision bit
/// pattern, in degrees) about the normalization of a given axis vector. The
/// host evaluates the second form; the first needs no evaluation at all.
#[derive(Clone, Copy, Debug, PartialEq, Eq, Structural)]
pub enum AxisRotation {
    Identity,
    AboutAxis { axis: Vec3Bits, angle_deg_bits: u32 },
}

/// The degenerate-rotation rule: when the vector a rotation axis would be
/// derived from is exactly zero, the instance receives the identity rotation
/// rather than a rotation about a normalized zero vector, whose quaternion
/// would be undefined. The choice depends on the axis vector alone.
pub fn rotation_about_axis(axis: Vec3Bits, angle_deg_bits: u32) -> (r: AxisRotation)
    ensures
        axis.is_zero_vector() ==> r == AxisRotation::Identity,
        !axis.is_zero_vector() ==> r == (AxisRotation::AboutAxis { axis, angle_deg_bits }),
{
    if axis.is_zero() {
        AxisRotation::Identity
    } else {
        AxisRotation::AboutAxis { axis, angle_deg_bits }
    }
}

/// Determinism of instance transforms: an instance is nothing but its
/// position and rotation bit patterns, so two instances built from identical
/// components are identical as data, and the raw transforms the host derives
/// from them are derived from bit-identical inputs.
pub proof fn lemma_instance_determinism(a: Instance, b: Instance)
    requires
        a.position == b.position,
        a.rotation == b.rotation,
    ensures
        a == b,
{
}

} // verus!
