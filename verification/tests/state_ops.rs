use banshee_render::camera::make_camera;
use banshee_render::error::RenderError;
use banshee_render::gateways::{MaterialSource, MeshSource, ModelLoaderGateway, ModelSource};
use banshee_render::instance::{Instance, QuatBits, Vec3Bits};
use banshee_render::plan::FinalizeStep;
use banshee_render::registry::PipelineRecord;
use banshee_render::size::Dimensions;
use banshee_render::state::{CoreState, RenderTargetDesc};

fn png_1x1_rgba(rgba: [u8; 4]) -> Vec<u8> {
    let img = image::RgbaImage::from_raw(1, 1, rgba.to_vec()).unwrap();
    let mut out = std::io::Cursor::new(Vec::new());
    image::DynamicImage::ImageRgba8(img)
        .write_to(&mut out, image::ImageFormat::Png)
        .unwrap();
    out.into_inner()
}

struct StubLoader {
    texture_bytes: Vec<u8>,
}

impl ModelLoaderGateway for StubLoader {
    fn load_model_sync(&self, _file_name: &str) -> Result<ModelSource, RenderError> {
        let quad = MeshSource {
            name: String::from("quad"),
            positions: [
                -1.0f32, -1.0, 0.0, 1.0, -1.0, 0.0, 1.0, 1.0, 0.0, -1.0, 1.0, 0.0,
            ]
            .iter()
            .map(|p| p.to_bits())
            .collect(),
            texcoords: [0.0f32, 1.0, 1.0, 1.0, 1.0, 0.0, 0.0, 0.0]
                .iter()
                .map(|t| t.to_bits())
                .collect(),
            normals: Vec::new(),
            indices: vec![0, 1, 2, 0, 2, 3],
            material_id: Some(0),
        };
        Ok(ModelSource {
            meshes: vec![quad],
            materials: vec![MaterialSource {
                name: String::from("solid"),
                diffuse_texture_bytes: self.texture_bytes.clone(),
            }],
        })
    }
}

struct FailingLoader;

impl ModelLoaderGateway for FailingLoader {
    fn load_model_sync(&self, _file_name: &str) -> Result<ModelSource, RenderError> {
        Err(RenderError::ModelLoadFailed)
    }
}

fn offscreen_state() -> CoreState {
    CoreState::create_offscreen(
        Dimensions::new(512, 512),
        vec![String::from("default")],
        String::from("test_outputs/quad.png"),
    )
    .unwrap()
}

fn one_instance() -> Vec<Instance> {
    vec![Instance::new(
        Vec3Bits::new(0, 0, 0),
        QuatBits::identity(),
    )]
}

#[test]
fn zero_width_is_invalid_size() {
    let r = CoreState::create_offscreen(
        Dimensions::new(0, 512),
        vec![String::from("default")],
        String::from("out.png"),
    );
    assert!(matches!(r, Err(RenderError::InvalidSize)));
}

#[test]
fn zero_height_is_invalid_size() {
    let r = CoreState::create_windowed(Dimensions::new(640, 0), vec![String::from("default")]);
    assert!(matches!(r, Err(RenderError::InvalidSize)));
}

#[test]
fn valid_size_creates_state() {
    let s = CoreState::create_windowed(Dimensions::new(1, 1), vec![String::from("default")])
        .unwrap();
    assert!(s.pipeline_exists("default"));
    assert!(!s.pipeline_exists("other"));
}

#[test]
fn load_model_unknown_pipeline_is_pipeline_not_found() {
    let mut s = offscreen_state();
    let loader = StubLoader {
        texture_bytes: png_1x1_rgba([200, 40, 40, 255]),
    };
    let r = s.load_model_sync("missing", "cube_1", "cube.obj", one_instance(), &loader);
    assert!(matches!(r, Err(RenderError::PipelineNotFound)));
    // The registry is untouched: nothing was inserted anywhere.
    assert!(s.get_model("default", "cube_1").is_none());
    assert!(s.get_model("missing", "cube_1").is_none());
}

#[test]
fn load_model_registers_under_model_id() {
    let mut s = offscreen_state();
    let loader = StubLoader {
        texture_bytes: png_1x1_rgba([200, 40, 40, 255]),
    };
    s.load_model_sync("default", "cube_1", "cube.obj", one_instance(), &loader)
        .unwrap();
    let m = s.get_model("default", "cube_1").unwrap();
    assert_eq!(m.instances.len(), 1);
    assert_eq!(m.meshes.len(), 1);
    assert_eq!(m.meshes[0].indices, vec![0, 1, 2, 0, 2, 3]);
    assert_eq!(m.meshes[0].material, 0);
    assert_eq!(m.materials.len(), 1);
    assert_eq!(m.materials[0].width, 1);
    assert_eq!(m.materials[0].height, 1);
    assert_eq!(m.materials[0].pixels, vec![200, 40, 40, 255]);
}

#[test]
fn failing_gateway_is_model_load_failed_and_nothing_inserted() {
    let mut s = offscreen_state();
    let r = s.load_model_sync("default", "cube_1", "cube.obj", one_instance(), &FailingLoader);
    assert!(matches!(r, Err(RenderError::ModelLoadFailed)));
    assert!(s.get_model("default", "cube_1").is_none());
}

#[test]
fn undecodable_texture_is_model_load_failed_and_nothing_inserted() {
    let mut s = offscreen_state();
    let loader = StubLoader {
        texture_bytes: vec![1, 2, 3, 4],
    };
    let r = s.load_model_sync("default", "cube_1", "cube.obj", one_instance(), &loader);
    assert!(matches!(r, Err(RenderError::ModelLoadFailed)));
    assert!(s.get_model("default", "cube_1").is_none());
}

#[test]
fn update_instances_unknown_pipeline_is_pipeline_not_found() {
    let mut s = offscreen_state();
    let r = s.update_model_instances("missing", "cube_1", Vec::new());
    assert!(matches!(r, Err(RenderError::PipelineNotFound)));
}

#[test]
fn update_instances_unknown_model_is_model_not_found() {
    let mut s = offscreen_state();
    let loader = StubLoader {
        texture_bytes: png_1x1_rgba([200, 40, 40, 255]),
    };
    s.load_model_sync("default", "cube_1", "cube.obj", one_instance(), &loader)
        .unwrap();
    let r = s.update_model_instances("default", "cube_2", Vec::new());
    assert!(matches!(r, Err(RenderError::ModelNotFound)));
    // The registered model's instance buffer is unchanged.
    assert_eq!(s.get_model("default", "cube_1").unwrap().instances.len(), 1);
}

#[test]
fn update_instances_replaces_wholesale() {
    let mut s = offscreen_state();
    let loader = StubLoader {
        texture_bytes: png_1x1_rgba([200, 40, 40, 255]),
    };
    s.load_model_sync("default", "cube_1", "cube.obj", one_instance(), &loader)
        .unwrap();
    let two = vec![
        Instance::new(Vec3Bits::new(0, 0, 0), QuatBits::identity()),
        Instance::new(
            Vec3Bits::new(1.5f32.to_bits(), 0, (-3.0f32).to_bits()),
            QuatBits::identity(),
        ),
    ];
    s.update_model_instances("default", "cube_1", two).unwrap();
    let m = s.get_model("default", "cube_1").unwrap();
    assert_eq!(m.instances.len(), 2);
    assert_eq!(m.instances[1].position.x, 1.5f32.to_bits());
    // Meshes and materials survived the update untouched.
    assert_eq!(m.meshes.len(), 1);
    assert_eq!(m.materials.len(), 1);
}

#[test]
fn empty_update_plans_zero_instance_draws() {
    let mut s = offscreen_state();
    let loader = StubLoader {
        texture_bytes: png_1x1_rgba([200, 40, 40, 255]),
    };
    s.load_model_sync("default", "cube_1", "cube.obj", one_instance(), &loader)
        .unwrap();
    let before = s.plan_frame();
    assert_eq!(before.draws.len(), 1);
    assert_eq!(before.draws[0].instance_count, 1);
    s.update_model_instances("default", "cube_1", Vec::new())
        .unwrap();
    let after = s.plan_frame();
    // The draw for the model is still planned, with zero instances: no
    // leftover draws from the prior instance set.
    assert_eq!(after.draws.len(), 1);
    assert_eq!(after.draws[0].instance_count, 0);
    assert_eq!(after.draws[0].index_count, 6);
}

#[test]
fn offscreen_plan_finalizes_with_copy_and_export() {
    let s = offscreen_state();
    let plan = s.plan_frame();
    match plan.finalize {
        FinalizeStep::CopyAndExport { size, output_path } => {
            assert_eq!(size, Dimensions::new(512, 512));
            assert_eq!(output_path, "test_outputs/quad.png");
        }
        FinalizeStep::Present => panic!("offscreen target must export, not present"),
    }
    assert_eq!(plan.clear_color.r, 0.1f64.to_bits());
    assert_eq!(plan.clear_color.g, 0.2f64.to_bits());
    assert_eq!(plan.clear_color.b, 0.3f64.to_bits());
    assert_eq!(plan.clear_color.a, 1.0f64.to_bits());
    assert_eq!(plan.depth_clear_bits, 1.0f32.to_bits());
}

#[test]
fn windowed_plan_finalizes_with_present() {
    let s = CoreState::create_windowed(Dimensions::new(800, 600), vec![String::from("default")])
        .unwrap();
    let plan = s.plan_frame();
    assert!(matches!(plan.finalize, FinalizeStep::Present));
    assert_eq!(plan.draws.len(), 0);
}

#[test]
fn loading_same_model_id_replaces_it() {
    let mut s = offscreen_state();
    let red = StubLoader {
        texture_bytes: png_1x1_rgba([200, 40, 40, 255]),
    };
    let blue = StubLoader {
        texture_bytes: png_1x1_rgba([10, 20, 220, 255]),
    };
    s.load_model_sync("default", "cube_1", "cube.obj", one_instance(), &red)
        .unwrap();
    s.load_model_sync("default", "cube_1", "cube.obj", Vec::new(), &blue)
        .unwrap();
    let m = s.get_model("default", "cube_1").unwrap();
    assert_eq!(m.materials[0].pixels, vec![10, 20, 220, 255]);
    assert_eq!(m.instances.len(), 0);
    // Still exactly one draw planned for the pipeline.
    assert_eq!(s.plan_frame().draws.len(), 1);
}

#[test]
fn target_size_is_recorded() {
    let t = RenderTargetDesc::Windowed {
        size: Dimensions::new(320, 200),
    };
    assert_eq!(t.size(), Dimensions::new(320, 200));
}

#[test]
fn camera_updates_reach_camera_aware_pipelines_only() {
    let s = CoreState {
        target: RenderTargetDesc::Windowed {
            size: Dimensions::new(64, 64),
        },
        camera: make_camera(Dimensions::new(64, 64)),
        pipelines: vec![
            PipelineRecord {
                id: String::from("flat"),
                camera_aware: false,
                models: Vec::new(),
            },
            PipelineRecord {
                id: String::from("default"),
                camera_aware: true,
                models: Vec::new(),
            },
        ],
    };
    assert_eq!(s.camera_update_targets(), vec![1]);
    let t = CoreState::create_windowed(Dimensions::new(64, 64), vec![String::from("default")])
        .unwrap();
    // Pipelines made by the default factory are camera-aware.
    assert_eq!(t.camera_update_targets(), vec![0]);
}

#[test]
fn update_camera_eye_moves_eye_only() {
    let mut s = offscreen_state();
    let old_target = s.camera.target;
    s.update_camera_eye(Vec3Bits::new(
        1.0f32.to_bits(),
        2.0f32.to_bits(),
        3.0f32.to_bits(),
    ));
    assert_eq!(s.camera.eye.x, 1.0f32.to_bits());
    assert_eq!(s.camera.eye.y, 2.0f32.to_bits());
    assert_eq!(s.camera.eye.z, 3.0f32.to_bits());
    assert_eq!(s.camera.target, old_target);
}

#[test]
fn draws_follow_registry_order_across_pipelines() {
    let mut s = CoreState::create_offscreen(
        Dimensions::new(64, 64),
        vec![String::from("first"), String::from("second")],
        String::from("out.png"),
    )
    .unwrap();
    let loader = StubLoader {
        texture_bytes: png_1x1_rgba([1, 2, 3, 255]),
    };
    s.load_model_sync("first", "m0", "cube.obj", one_instance(), &loader)
        .unwrap();
    s.load_model_sync("first", "m1", "cube.obj", Vec::new(), &loader)
        .unwrap();
    s.load_model_sync("second", "m2", "cube.obj", one_instance(), &loader)
        .unwrap();
    let plan = s.plan_frame();
    assert_eq!(plan.draws.len(), 3);
    let order: Vec<(usize, usize)> = plan
        .draws
        .iter()
        .map(|d| (d.pipeline_index, d.model_index))
        .collect();
    assert_eq!(order, vec![(0, 0), (0, 1), (1, 0)]);
    assert_eq!(plan.draws[0].instance_count, 1);
    assert_eq!(plan.draws[1].instance_count, 0);
    assert_eq!(plan.draws[2].instance_count, 1);
}

#[test]
fn loading_into_one_pipeline_leaves_the_other_untouched() {
    let mut s = CoreState::create_offscreen(
        Dimensions::new(64, 64),
        vec![String::from("first"), String::from("second")],
        String::from("out.png"),
    )
    .unwrap();
    let loader = StubLoader {
        texture_bytes: png_1x1_rgba([1, 2, 3, 255]),
    };
    s.load_model_sync("second", "m", "cube.obj", one_instance(), &loader)
        .unwrap();
    assert!(s.get_model("first", "m").is_none());
    assert!(s.get_model("second", "m").is_some());
    // Duplicate requested identifiers register a single pipeline.
    let t = CoreState::create_windowed(
        Dimensions::new(64, 64),
        vec![String::from("p"), String::from("p")],
    )
    .unwrap();
    assert_eq!(t.pipelines.len(), 1);
}
