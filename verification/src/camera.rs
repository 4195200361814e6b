//! Camera state and the fixed matrices of the view-projection pipeline.
//!
//! The view-projection product itself is floating-point work evaluated by the
//! host's linear-algebra layer; the core owns the camera's parameters (as
//! IEEE-754 bit patterns), the fixed convention-correction matrix, and the
//! initial value of the GPU-visible uniform. Matrices are carried as 16 bit
//! patterns in column-major order.

use vstd::prelude::*;
use crate::instance::{Vec3Bits, F32_ONE_BITS};
use crate::size::Dimensions;

verus! {

/// The bit pattern of `0.5` in IEEE-754 single precision.
pub const F32_HALF_BITS: u32 = 0x3F00_0000;

/// The bit pattern of `6.0` in IEEE-754 single precision.
pub const F32_SIX_BITS: u32 = 0x40C0_0000;

/// The bit pattern of `20.0` in IEEE-754 single precision.
pub const F32_TWENTY_BITS: u32 = 0x41A0_0000;

/// The bit pattern of `45.0` in IEEE-754 single precision.
pub const F32_FORTY_FIVE_BITS: u32 = 0x4234_0000;

/// The bit pattern of `0.1` in IEEE-754 single precision.
pub const F32_TENTH_BITS: u32 = 0x3DCC_CCCD;

/// The bit pattern of `100.0` in IEEE-754 single precision.
pub const F32_HUNDRED_BITS: u32 = 0x42C8_0000;

/// The camera: an eye position, a look-at target, an up direction, and the
/// perspective parameters. The aspect ratio is the width of `aspect_size`
/// divided by its height; the division is floating-point work left to the
/// host, so the core carries the two operands instead of the quotient.
#[derive(Clone, Copy, Debug, PartialEq, Eq, Structural)]
pub struct PerspectiveCamera {
    /// Where the camera stands.
    pub eye: Vec3Bits,
    /// The point the camera looks at.
    pub target: Vec3Bits,
    /// The direction that is up for the camera.
    pub up: Vec3Bits,
    /// The target size whose width / height quotient is the aspect ratio.
    pub aspect_size: Dimensions,
    /// Vertical field of view in degrees.
    pub fovy_deg: u32,
    /// Near clip plane distance.
    pub znear: u32,
    /// Far clip plane distance.
    pub zfar: u32,
}

/// The default camera for a target of the given size: one that stands 6 units
/// up and 20 units back from the origin, looks at the origin with the world's
/// up axis, and uses a 45-degree vertical field of view with clip planes at
/// 0.1 and 100.
pub open spec fn default_camera(size: Dimensions) -> PerspectiveCamera {
    PerspectiveCamera {
        eye: Vec3Bits { x: 0u32, y: F32_SIX_BITS, z: F32_TWENTY_BITS },
        target: Vec3Bits { x: 0u32, y: 0u32, z: 0u32 },
        up: Vec3Bits { x: 0u32, y: F32_ONE_BITS, z: 0u32 },
        aspect_size: size,
        fovy_deg: F32_FORTY_FIVE_BITS,
        znear: F32_TENTH_BITS,
        zfar: F32_HUNDRED_BITS,
    }
}

pub fn make_camera(size: Dimensions) -> (c: PerspectiveCamera)
    ensures
        c == default_camera(size),
{
    PerspectiveCamera {
        eye: Vec3Bits { x: 0, y: F32_SIX_BITS, z: F32_TWENTY_BITS },
        target: Vec3Bits { x: 0, y: 0, z: 0 },
        up: Vec3Bits { x: 0, y: F32_ONE_BITS, z: 0 },
        aspect_size: size,
        fovy_deg: F32_FORTY_FIVE_BITS,
        znear: F32_TENTH_BITS,
        zfar: F32_HUNDRED_BITS,
    }
}

/// The 4x4 identity matrix as column-major bit patterns.
pub open spec fn identity_matrix_bits() -> Seq<u32> {
    seq![
        F32_ONE_BITS, 0u32, 0u32, 0u32,
        0u32, F32_ONE_BITS, 0u32, 0u32,
        0u32, 0u32, F32_ONE_BITS, 0u32,
        0u32, 0u32, 0u32, F32_ONE_BITS,
    ]
}

/// The fixed convention-correction matrix, column-major: it remaps the
/// projection's depth range from the [-1, 1] convention to the [0, 1]
/// normalized device coordinates of the target graphics API by scaling z by
/// one half and translating it by one half. It is a constant, never
/// recomputed.
pub open spec fn convention_correction_bits() -> Seq<u32> {
    seq![
        F32_ONE_BITS, 0u32, 0u32, 0u32,
        0u32, F32_ONE_BITS, 0u32, 0u32,
        0u32, 0u32, F32_HALF_BITS, F32_HALF_BITS,
        0u32, 0u32, 0u32, F32_ONE_BITS,
    ]
}

pub fn convention_correction_matrix() -> (m: Vec<u32>)
    ensures
        m@ == convention_correction_bits(),
{
    let mut m: Vec<u32> = Vec::new();
    m.push(F32_ONE_BITS);
    m.push(0);
    m.push(0);
    m.push(0);
    m.push(0);
    m.push(F32_ONE_BITS);
    m.push(0);
    m.push(0);
    m.push(0);
    m.push(0);
    m.push(F32_HALF_BITS);
    m.push(F32_HALF_BITS);
    m.push(0);
    m.push(0);
    m.push(0);
    m.push(F32_ONE_BITS);
    proof {
        assert(m@ =~= convention_correction_bits());
    }
    m
}

/// The GPU-visible camera uniform: the view-projection matrix as 16
/// column-major bit patterns. It starts as the identity and is recomputed by
/// the host from the camera's parameters on every camera update, never cached
/// stale past one update.
pub struct CameraUniform {
    pub view_proj: Vec<u32>,
}

impl CameraUniform {
    /// Whether the uniform carries a full 4x4 matrix.
    pub open spec fn wf(self) -> bool {
        self.view_proj@.len() == 16
    }

    pub fn new() -> (c: CameraUniform)
        ensures
            c.view_proj@ == identity_matrix_bits(),
            c.wf(),
    {
        let mut m: Vec<u32> = Vec::new();
        let mut i: usize = 0;
        while i < 16
            invariant
                i <= 16,
                m@.len() == i,
                forall|k: int| 0 <= k < i ==> m@[k] == (if k % 5 == 0 {
                    F32_ONE_BITS
                } else {
                    0u32
                }),
            decreases 16 - i,
        {
            if i % 5 == 0 {
                m.push(F32_ONE_BITS);
            } else {
                m.push(0);
            }
            i = i + 1;
        }
        proof {
            assert(m@ =~= identity_matrix_bits());
        }
        CameraUniform { view_proj: m }
    }
}

} // verus!
