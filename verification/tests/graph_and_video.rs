use imagine::color::{Color, ColorParseError};
use imagine::fixed::UNIT;
use imagine::graph::{
    create_phong_pass, LayerDraw, Material2D, PhongMaterial, RenderGraph,
    RenderOperation, RenderResource, DEFAULT_BATCH_SIZE_2D, ELLIPSE_UNIFORM_SIZE,
    PATH_UNIFORM_SIZE, SEGMENT_BYTES,
};
use imagine::shapes::square;
use imagine::video::{chroma_b, chroma_r, luma, yuv_frame, Video};
use imagine::world::{Domain, World};

fn layer_bytes(layer: &LayerDraw) -> usize {
    layer.segments.len() * SEGMENT_BYTES
        + layer.paths.len() * PATH_UNIFORM_SIZE
        + layer.ellipses.len() * ELLIPSE_UNIFORM_SIZE
}

#[test]
fn unknown_names_answer_with_not_found() {
    let graph = RenderGraph::default();
    let missing = String::from("no_such_resource");
    match graph.resource(&missing) {
        RenderResource::NotFound => {},
        _ => panic!("expected the sentinel"),
    }
    let missing_op = String::from("no such pass");
    match graph.op(&missing_op) {
        RenderOperation::NotFound => {},
        _ => panic!("expected the sentinel"),
    }
}

#[test]
fn default_graph_registers_the_2d_passes() {
    let graph = RenderGraph::default();
    let name = String::from("fill_config");
    match graph.resource(&name) {
        RenderResource::Uniform { size, binding } => {
            assert_eq!(*size, 80);
            assert_eq!(*binding, 0);
        },
        _ => panic!("fill_config should be a uniform"),
    }
    let op_name = String::from("fill pass");
    match graph.op(&op_name) {
        RenderOperation::RenderPass { input, output, .. } => {
            assert_eq!(input.len(), 2);
            assert_eq!(output.len(), 1);
            assert_eq!(input[0], "fill_config");
        },
        _ => panic!("fill pass should be a render pass"),
    }
    assert_eq!(graph.stages.len(), 2);
    assert_eq!(graph.stages[0][0], "fill pass");
    assert_eq!(graph.stages[1][0], "stroke pass");
}

#[test]
fn first_registration_of_a_name_wins() {
    let mut graph = RenderGraph::empty();
    graph.insert_resource(String::from("buf"), RenderResource::Buffer { size: 1 });
    graph.insert_resource(String::from("buf"), RenderResource::Buffer { size: 2 });
    let name = String::from("buf");
    match graph.resource(&name) {
        RenderResource::Buffer { size } => assert_eq!(*size, 1),
        _ => panic!("expected a buffer"),
    }
}

#[test]
fn batched_ellipses_never_exceed_the_budget() {
    let mut world = World::new();
    // Enough ellipses to spill over one batch.
    let per_layer = DEFAULT_BATCH_SIZE_2D / ELLIPSE_UNIFORM_SIZE;
    let total = per_layer + 41;
    for _ in 0..total {
        world.add_ellipse(UNIT, UNIT);
    }
    let graph = RenderGraph::default();
    let plan = graph.run(&world);
    assert!(plan.layers.len() >= 2);
    let mut seen = 0;
    for layer in plan.layers.iter() {
        assert!(layer_bytes(layer) <= DEFAULT_BATCH_SIZE_2D);
        seen += layer.ellipses.len();
    }
    assert_eq!(seen, total);
}

#[test]
fn run_2d_tessellates_a_square_path() {
    let mut world = World::new();
    let size = 4 * UNIT;
    square(&mut world, size);
    let graph = RenderGraph::default();
    let plan = graph.run(&world);
    assert!(plan.fill_config.is_some());
    assert!(plan.stroke_config.is_some());
    assert_eq!(plan.layers.len(), 1);
    let layer = &plan.layers[0];
    assert_eq!(layer.paths.len(), 1);
    assert_eq!(layer.paths[0].segments, 4);
    assert_eq!(layer.segments.len(), 4);
    // The first record runs from the first corner to the second, centered.
    let half = 2 * UNIT;
    assert_eq!(layer.segments[0].x1, -half);
    assert_eq!(layer.segments[0].y1, half);
    assert_eq!(layer.segments[0].x2, -half);
    assert_eq!(layer.segments[0].y2, -half);
    let fill = plan.fill_config.unwrap();
    assert_eq!(fill.view, world.camera_2d.view);
}

#[test]
fn run_3d_rebuilds_the_draw_list() {
    let mut world = World::new();
    world.domain = Domain::World3D;
    imagine::mesh::cube(&mut world);
    let mut graph = RenderGraph::empty();
    let (op, resources) = create_phong_pass(&graph.context);
    for (name, resource) in resources {
        graph.insert_resource(name, resource);
    }
    graph.insert_operation(String::from("phong pass"), op);
    let plan = graph.run(&world);
    assert!(plan.camera_3d.is_some());
    assert_eq!(plan.models.len(), 1);
    assert_eq!(plan.models[0].size, 36);
    assert_eq!(plan.models[0].material, "brick-phong");
    assert_eq!(plan.uniforms_3d.len(), 1);
    assert_eq!(plan.layers.len(), 0);
}

#[test]
fn bind_layouts_list_their_slots() {
    let phong = PhongMaterial::bind_layout();
    assert_eq!(phong.len(), 6);
    assert_eq!(phong[5].binding, 5);
    let m2 = Material2D::bind_layout();
    assert_eq!(m2.len(), 3);
    assert_eq!(m2[0].binding, 0);
}

#[test]
fn yuv_formulas_match_known_values() {
    assert_eq!(luma(0, 0, 0), 0);
    assert_eq!(luma(255, 255, 255), 219);
    assert_eq!(chroma_b(0, 0, 255), 128 + 111);
    assert_eq!(chroma_r(255, 0, 0), 128 + 111);
    assert_eq!(chroma_b(0, 0, 0), 128);
    assert_eq!(chroma_r(0, 0, 0), 128);
}

#[test]
fn yuv_frame_converts_every_pixel() {
    // A two-by-two frame: red, green, blue, white.
    let frame = vec![
        255, 0, 0, 255, 0, 255, 0, 255,
        0, 0, 255, 255, 255, 255, 255, 255,
    ];
    let f = yuv_frame(&frame, 2, 2);
    assert_eq!(f.y.len(), 4);
    // A longer buffer is accepted; only the frame's prefix is read.
    let mut padded = frame.clone();
    padded.extend_from_slice(&[9, 9, 9, 9]);
    let g = yuv_frame(&padded, 2, 2);
    assert_eq!(g.y, f.y);
    assert_eq!(g.cb, f.cb);
    assert_eq!(f.cb.len(), 1);
    assert_eq!(f.cr.len(), 1);
    assert_eq!(f.y[0], luma(255, 0, 0));
    assert_eq!(f.y[1], luma(0, 255, 0));
    assert_eq!(f.y[2], luma(0, 0, 255));
    assert_eq!(f.y[3], luma(255, 255, 255));
    // Chroma samples the even-coordinate pixel: the red one.
    assert_eq!(f.cb[0], chroma_b(255, 0, 0));
    assert_eq!(f.cr[0], chroma_r(255, 0, 0));
}

#[test]
fn video_state_machine() {
    let mut v = Video::new();
    assert!(!v.writing);
    assert_eq!(v.get_fps(), None);
    v.make("out.mp4", 24, 100, 100);
    assert!(v.writing);
    assert_eq!(v.get_fps(), Some(24));
    assert_eq!(v.get_width(), Some(100));
    assert_eq!(v.get_height(), Some(100));
    v.write(3);
    v.write(-1);
    assert_eq!(v.pts, 3);
    v.free();
    assert!(!v.writing);
    assert_eq!(v.get_fps(), Some(24));
}

#[test]
fn color_parses_short_hex() {
    assert_eq!(
        Color::new("F0A0B"),
        Ok(Color { r: 15, g: 10, b: 11 }),
    );
    assert_eq!(Color::new("F0A"), Err(ColorParseError::TooShort));
    assert_eq!(Color::new("F0A0Z"), Err(ColorParseError::BadDigit));
    assert_eq!(Color::new("Z0A0B"), Err(ColorParseError::BadDigit));
}

#[test]
fn color_writes_full_hex() {
    let c = Color { r: 255, g: 0, b: 16 };
    assert_eq!(c.to_hex(), "#FF0010");
    assert_eq!(Color::black().to_hex(), "#000000");
}
