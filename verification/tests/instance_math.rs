use banshee_render::instance::{
    rotation_about_axis, AxisRotation, Instance, QuatBits, Vec3Bits, F32_ONE_BITS,
};
use cgmath::{InnerSpace, Rotation3, SquareMatrix, Zero};

fn raw_transform(inst: &Instance) -> [[f32; 4]; 4] {
    let position = cgmath::Vector3::new(
        f32::from_bits(inst.position.x),
        f32::from_bits(inst.position.y),
        f32::from_bits(inst.position.z),
    );
    let rotation = cgmath::Quaternion::new(
        f32::from_bits(inst.rotation.w),
        f32::from_bits(inst.rotation.x),
        f32::from_bits(inst.rotation.y),
        f32::from_bits(inst.rotation.z),
    );
    (cgmath::Matrix4::from_translation(position) * cgmath::Matrix4::from(rotation)).into()
}

fn bits_of(m: [[f32; 4]; 4]) -> [[u32; 4]; 4] {
    let mut out = [[0u32; 4]; 4];
    for c in 0..4 {
        for r in 0..4 {
            out[c][r] = m[c][r].to_bits();
        }
    }
    out
}

#[test]
fn zero_axis_yields_identity_rotation() {
    let axis = Vec3Bits::new(0, 0, 0);
    let r = rotation_about_axis(axis, 45.0f32.to_bits());
    assert_eq!(r, AxisRotation::Identity);
}

#[test]
fn negative_zero_axis_yields_identity_rotation() {
    // -0.0 compares equal to zero in floating point, so the axis is
    // degenerate regardless of its sign bits, whatever the angle.
    let axis = Vec3Bits::new((-0.0f32).to_bits(), 0, (-0.0f32).to_bits());
    assert!(f32::from_bits(axis.x) == 0.0);
    let r = rotation_about_axis(axis, 123.5f32.to_bits());
    assert_eq!(r, AxisRotation::Identity);
}

#[test]
fn nonzero_axis_keeps_axis_and_angle() {
    let axis = Vec3Bits::new(3.0f32.to_bits(), 0, 1.0f32.to_bits());
    let r = rotation_about_axis(axis, 45.0f32.to_bits());
    assert_eq!(
        r,
        AxisRotation::AboutAxis {
            axis,
            angle_deg_bits: 45.0f32.to_bits()
        }
    );
}

#[test]
fn identity_quaternion_matches_zero_angle_rotation() {
    // The identity constant is bit-for-bit what a zero-angle axis rotation
    // evaluates to, so the degenerate case needs no evaluation at all.
    let q = cgmath::Quaternion::from_axis_angle(cgmath::Vector3::<f32>::unit_z(), cgmath::Deg(0.0));
    assert_eq!(q.v.x.to_bits(), 0);
    assert_eq!(q.v.y.to_bits(), 0);
    assert_eq!(q.v.z.to_bits(), 0);
    assert_eq!(q.s.to_bits(), F32_ONE_BITS);
    assert_eq!(QuatBits::identity(), QuatBits::new(0, 0, 0, F32_ONE_BITS));
}

#[test]
fn identity_rotation_leaves_rotational_component_identity() {
    // An instance with the identity rotation transforms by translation
    // alone: the rotational 3x3 block of its raw transform is the identity.
    let inst = Instance::new(
        Vec3Bits::new(2.0f32.to_bits(), 5.0f32.to_bits(), (-7.0f32).to_bits()),
        QuatBits::identity(),
    );
    let m = raw_transform(&inst);
    let rotation_block = cgmath::Matrix3::new(
        m[0][0], m[0][1], m[0][2], m[1][0], m[1][1], m[1][2], m[2][0], m[2][1], m[2][2],
    );
    assert_eq!(rotation_block, cgmath::Matrix3::<f32>::identity());
    assert_eq!(m[3][0], 2.0);
    assert_eq!(m[3][1], 5.0);
    assert_eq!(m[3][2], -7.0);
}

#[test]
fn identical_instances_produce_bit_identical_transforms() {
    let axis = cgmath::Vector3::new(4.5f32, 0.0, -4.5);
    assert!(!axis.is_zero());
    let q = cgmath::Quaternion::from_axis_angle(axis.normalize(), cgmath::Deg(45.0));
    let a = Instance::new(
        Vec3Bits::new(4.5f32.to_bits(), 0.86f32.to_bits(), (-4.5f32).to_bits()),
        QuatBits::new(
            q.v.x.to_bits(),
            q.v.y.to_bits(),
            q.v.z.to_bits(),
            q.s.to_bits(),
        ),
    );
    let b = Instance::new(a.position, a.rotation);
    assert_eq!(a, b);
    assert_eq!(bits_of(raw_transform(&a)), bits_of(raw_transform(&b)));
}
