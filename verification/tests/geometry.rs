use banshee_render::camera::{make_camera, convention_correction_matrix, CameraUniform};
use banshee_render::context::plan_surface_config;
use banshee_render::error::RenderError;
use banshee_render::model_loader::ObjWgpuModelLoaderAdapter;
use banshee_render::size::Dimensions;
use banshee_render::vertex::{
    build_vertices, instance_transform_layout, model_vertex_layout, VertexFormatDesc,
    VertexStepDesc,
};

#[test]
fn vertices_interleave_positions_texcoords_normals() {
    let positions: Vec<u32> = [1.0f32, 2.0, 3.0, 4.0, 5.0, 6.0]
        .iter()
        .map(|p| p.to_bits())
        .collect();
    let texcoords: Vec<u32> = [0.25f32, 0.75, 0.5, 1.0].iter().map(|t| t.to_bits()).collect();
    let normals: Vec<u32> = [0.0f32, 0.0, 1.0, 0.0, 1.0, 0.0]
        .iter()
        .map(|n| n.to_bits())
        .collect();
    let v = build_vertices(&positions, &texcoords, &normals).unwrap();
    assert_eq!(v.len(), 2);
    assert_eq!(v[0].px, 1.0f32.to_bits());
    assert_eq!(v[0].py, 2.0f32.to_bits());
    assert_eq!(v[0].pz, 3.0f32.to_bits());
    assert_eq!(v[0].tu, 0.25f32.to_bits());
    assert_eq!(v[0].tv, 0.75f32.to_bits());
    assert_eq!(v[0].nz, 1.0f32.to_bits());
    assert_eq!(v[1].px, 4.0f32.to_bits());
    assert_eq!(v[1].ny, 1.0f32.to_bits());
}

#[test]
fn missing_normals_become_zero_normals() {
    let positions: Vec<u32> = [1.0f32, 2.0, 3.0].iter().map(|p| p.to_bits()).collect();
    let texcoords: Vec<u32> = [0.0f32, 0.0].iter().map(|t| t.to_bits()).collect();
    let v = build_vertices(&positions, &texcoords, &Vec::new()).unwrap();
    assert_eq!(v.len(), 1);
    assert_eq!(v[0].nx, 0);
    assert_eq!(v[0].ny, 0);
    assert_eq!(v[0].nz, 0);
}

#[test]
fn mismatched_components_fail_model_load() {
    let positions: Vec<u32> = vec![0; 6];
    let texcoords: Vec<u32> = vec![0; 3];
    let r = build_vertices(&positions, &texcoords, &Vec::new());
    assert!(matches!(r, Err(RenderError::ModelLoadFailed)));
}

#[test]
fn model_vertex_layout_offsets() {
    let l = model_vertex_layout();
    assert_eq!(l.array_stride, 32);
    assert_eq!(l.step, VertexStepDesc::Vertex);
    let offs: Vec<(u64, u32)> = l.attributes.iter().map(|a| (a.offset, a.shader_location)).collect();
    assert_eq!(offs, vec![(0, 0), (12, 1), (20, 2)]);
    assert_eq!(l.attributes[1].format, VertexFormatDesc::Float32x2);
}

#[test]
fn instance_layout_spans_four_columns() {
    let l = instance_transform_layout();
    assert_eq!(l.array_stride, 64);
    assert_eq!(l.step, VertexStepDesc::Instance);
    let offs: Vec<(u64, u32)> = l.attributes.iter().map(|a| (a.offset, a.shader_location)).collect();
    assert_eq!(offs, vec![(0, 5), (16, 6), (32, 7), (48, 8)]);
    for a in &l.attributes {
        assert_eq!(a.format, VertexFormatDesc::Float32x4);
    }
}

#[test]
fn default_camera_parameters() {
    let c = make_camera(Dimensions::new(512, 256));
    assert_eq!(f32::from_bits(c.eye.y), 6.0);
    assert_eq!(f32::from_bits(c.eye.z), 20.0);
    assert_eq!(f32::from_bits(c.up.y), 1.0);
    assert_eq!(f32::from_bits(c.fovy_deg), 45.0);
    assert_eq!(f32::from_bits(c.znear), 0.1);
    assert_eq!(f32::from_bits(c.zfar), 100.0);
    assert_eq!(c.aspect_size, Dimensions::new(512, 256));
}

#[test]
fn camera_uniform_starts_as_identity() {
    let u = CameraUniform::new();
    let m: Vec<f32> = u.view_proj.iter().map(|b| f32::from_bits(*b)).collect();
    for c in 0..4 {
        for r in 0..4 {
            assert_eq!(m[c * 4 + r], if c == r { 1.0 } else { 0.0 });
        }
    }
}

#[test]
fn convention_correction_halves_and_shifts_depth() {
    let m: Vec<f32> = convention_correction_matrix()
        .iter()
        .map(|b| f32::from_bits(*b))
        .collect();
    // Column-major: the third column scales z by one half and carries the
    // half translation in its w row.
    assert_eq!(m[0], 1.0);
    assert_eq!(m[5], 1.0);
    assert_eq!(m[10], 0.5);
    assert_eq!(m[11], 0.5);
    assert_eq!(m[15], 1.0);
}

#[test]
fn surface_config_prefers_first_srgb_format() {
    let p = plan_surface_config(&Dimensions::new(800, 600), &vec![false, true, true]).unwrap();
    assert_eq!(p.format_index, 1);
    assert_eq!((p.width, p.height), (800, 600));
    assert!(p.vsync);
    assert_eq!(p.desired_maximum_frame_latency, 2);
}

#[test]
fn surface_config_falls_back_to_first_format() {
    let p = plan_surface_config(&Dimensions::new(800, 600), &vec![false, false]).unwrap();
    assert_eq!(p.format_index, 0);
}

#[test]
fn surface_config_needs_a_format() {
    assert!(plan_surface_config(&Dimensions::new(800, 600), &Vec::new()).is_none());
}

#[test]
fn obj_loader_resolves_under_res() {
    let adapter = ObjWgpuModelLoaderAdapter::new(String::from("/tmp/build_out"));
    assert_eq!(adapter.get_out_dir_path("cube.obj"), "/tmp/build_out/res/cube.obj");
}
