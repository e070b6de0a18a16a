use autonomy::command::{Draw, DrawCall, Span};
use autonomy::device::Device;
use autonomy::drawable::Drawable;
use autonomy::target::{ColorTarget, DepthTarget};
use autonomy::terrain::{Image, Terrain};
use autonomy::types::{background, Color, Extent3d, IndexFormat, LoadOp, Operations, TextureFormat};
use autonomy::uniforms::UniformStore;
use autonomy::{clear_screen, Autonomy, ScreenTargets, Triangle};

fn targets(width: u32, height: u32) -> ScreenTargets {
    ScreenTargets {
        extent: Extent3d { width, height, depth_or_array_layers: 1 },
        color: ColorTarget { id: 7, width, height, format: TextureFormat::Bgra8Unorm },
        depth: DepthTarget { id: 1, width, height },
    }
}

fn identity() -> [[u32; 4]; 4] {
    let one = 1.0f32.to_bits();
    [[one, 0, 0, 0], [0, one, 0, 0], [0, 0, one, 0], [0, 0, 0, one]]
}

fn white_image() -> Image {
    Image::new(TextureFormat::Rgba8UnormSrgb, 2, 1, vec![255u8; 8]).unwrap()
}

fn scene() -> (Device, Autonomy) {
    let mut device = Device::new();
    let scene = Autonomy::new(&mut device, TextureFormat::Bgra8Unorm, identity(), white_image());
    (device, scene)
}

#[test]
fn empty_scene_is_one_clear_to_the_background() {
    let mut device = Device::new();
    let store = UniformStore::new(&mut device, identity());
    let mut scene = Autonomy::with_drawables(store, Vec::new());
    let t = targets(640, 480);
    let frame = scene.draw(identity(), &t);
    assert_eq!(frame.command_buffers.len(), 1);
    let pass = frame.command_buffers[0].pass;
    assert_eq!(pass.draw, None);
    assert!(pass.ops.store);
    assert_eq!(pass.target, t.color);
    match pass.ops.load {
        LoadOp::Clear(c) => {
            assert_eq!(f64::from_bits(c.r), 0.2);
            assert_eq!(f64::from_bits(c.g), 0.2);
            assert_eq!(f64::from_bits(c.b), 0.2);
            assert_eq!(f64::from_bits(c.a), 1.0);
        }
        LoadOp::Load => panic!("the first pass must clear"),
    }
    assert_eq!(frame.command_buffers[0], clear_screen(&t, background()));
}

#[test]
fn background_is_one_fifth_grey() {
    let c = background();
    assert_eq!(
        (f64::from_bits(c.r), f64::from_bits(c.g), f64::from_bits(c.b), f64::from_bits(c.a)),
        (0.2, 0.2, 0.2, 1.0)
    );
}

#[test]
fn clear_screen_clears_to_the_given_color_and_draws_nothing() {
    let t = targets(3, 2);
    let red = Color {
        r: 1.0f64.to_bits(),
        g: 0.0f64.to_bits(),
        b: 0.0f64.to_bits(),
        a: 1.0f64.to_bits(),
    };
    let commands = clear_screen(&t, red);
    assert_eq!(commands.pass.target, t.color);
    assert_eq!(commands.pass.ops, Operations { load: LoadOp::Clear(red), store: true });
    assert_eq!(commands.pass.draw, None);
}

#[test]
fn frame_has_one_buffer_more_than_drawables_and_starts_with_the_clear() {
    let (_device, mut scene) = scene();
    let t = targets(800, 600);
    let n = scene.drawables().len();
    assert_eq!(n, 2);
    let frame = scene.draw(identity(), &t);
    assert_eq!(frame.command_buffers.len(), n + 1);
    assert_eq!(frame.command_buffers[0], clear_screen(&t, background()));
}

#[test]
fn frame_of_one_drawable_has_two_buffers() {
    let mut device = Device::new();
    let store = UniformStore::new(&mut device, identity());
    let triangle = Triangle::new(&mut device, TextureFormat::Bgra8Unorm, store.layout());
    let mut scene = Autonomy::with_drawables(store, vec![Drawable::Triangle(triangle)]);
    let t = targets(16, 16);
    let frame = scene.draw(identity(), &t);
    assert_eq!(frame.command_buffers.len(), 2);
    assert_eq!(frame.command_buffers[0], clear_screen(&t, background()));
    assert_eq!(frame.command_buffers[1], triangle.draw(&t, store.bind_group()));
}

#[test]
fn drawables_follow_the_clear_in_order_of_registration() {
    let (_device, mut scene) = scene();
    let t = targets(800, 600);
    let group = scene.uniforms().bind_group();
    let (triangle, terrain) = match (scene.drawables()[0], scene.drawables()[1]) {
        (Drawable::Triangle(a), Drawable::Terrain(b)) => (a, b),
        _ => panic!("the triangle is registered before the terrain"),
    };
    let frame = scene.draw(identity(), &t);
    assert_eq!(frame.command_buffers[1], triangle.draw(&t, group));
    assert_eq!(frame.command_buffers[2], terrain.draw(&t, group));
}

#[test]
fn registration_order_is_kept_when_the_terrain_comes_first() {
    let mut device = Device::new();
    let store = UniformStore::new(&mut device, identity());
    let terrain =
        Terrain::new(&mut device, TextureFormat::Bgra8Unorm, store.layout(), white_image());
    let triangle = Triangle::new(&mut device, TextureFormat::Bgra8Unorm, store.layout());
    let mut scene = Autonomy::with_drawables(
        store,
        vec![Drawable::Terrain(terrain), Drawable::Triangle(triangle)],
    );
    let t = targets(10, 10);
    let frame = scene.draw(identity(), &t);
    assert_eq!(frame.command_buffers.len(), 3);
    assert_eq!(frame.command_buffers[1], terrain.draw(&t, store.bind_group()));
    assert_eq!(frame.command_buffers[2], triangle.draw(&t, store.bind_group()));
}

#[test]
fn every_drawable_loads_and_stores_and_only_the_first_pass_clears() {
    let (_device, mut scene) = scene();
    let t = targets(800, 600);
    let frame = scene.draw(identity(), &t);
    for (i, commands) in frame.command_buffers.iter().enumerate() {
        assert!(commands.pass.ops.store);
        assert_eq!(commands.pass.target, t.color);
        if i == 0 {
            assert_eq!(commands.pass.ops.load, LoadOp::Clear(background()));
        } else {
            assert_eq!(commands.pass.ops.load, LoadOp::Load);
            assert!(commands.pass.draw.is_some());
        }
    }
}

#[test]
fn terrain_is_submitted_after_the_triangle() {
    let (_device, mut scene) = scene();
    let t = targets(800, 600);
    let frame = scene.draw(identity(), &t);
    let triangle_at = frame
        .command_buffers
        .iter()
        .position(|c| matches!(c.pass.draw, Some(DrawCall { draw: Draw::Direct { .. }, .. })))
        .unwrap();
    let terrain_at = frame
        .command_buffers
        .iter()
        .position(|c| matches!(c.pass.draw, Some(DrawCall { draw: Draw::Indexed { .. }, .. })))
        .unwrap();
    assert_eq!((triangle_at, terrain_at), (1, 2));
    assert_eq!(frame.command_buffers[terrain_at].pass.ops.load, LoadOp::Load);
}

#[test]
fn same_camera_and_targets_give_the_same_frame() {
    let (_device, mut scene) = scene();
    let t = targets(800, 600);
    let first = scene.draw(identity(), &t);
    let second = scene.draw(identity(), &t);
    assert_eq!(first, second);
}

#[test]
fn every_draw_call_binds_the_camera_uniforms_in_slot_zero() {
    let (_device, mut scene) = scene();
    let t = targets(800, 600);
    let group = scene.uniforms().bind_group();
    let frame = scene.draw(identity(), &t);
    for commands in frame.command_buffers.iter().skip(1) {
        assert_eq!(commands.pass.draw.unwrap().uniforms, group);
    }
}

#[test]
fn triangle_draws_three_vertices_without_buffers() {
    let mut device = Device::new();
    let store = UniformStore::new(&mut device, identity());
    let triangle = Triangle::new(&mut device, TextureFormat::Bgra8Unorm, store.layout());
    let t = targets(4, 4);
    let call = triangle.draw(&t, store.bind_group()).pass.draw.unwrap();
    assert_eq!(call.pipeline, triangle.render_pipeline());
    assert_eq!(call.uniforms, store.bind_group());
    assert_eq!(call.private, None);
    assert_eq!(call.vertex_buffer, None);
    assert_eq!(
        call.draw,
        Draw::Direct { vertices: Span { start: 0, end: 3 }, instances: Span { start: 0, end: 1 } }
    );
}

#[test]
fn terrain_draws_all_six_indices_with_its_own_bindings() {
    let mut device = Device::new();
    let store = UniformStore::new(&mut device, identity());
    let terrain =
        Terrain::new(&mut device, TextureFormat::Bgra8Unorm, store.layout(), white_image());
    let t = targets(4, 4);
    let call = terrain.draw(&t, store.bind_group()).pass.draw.unwrap();
    assert_eq!(call.pipeline, terrain.render_pipeline());
    assert_eq!(call.uniforms, store.bind_group());
    assert_eq!(call.private, Some(terrain.bind_group()));
    assert_eq!(call.vertex_buffer, Some(terrain.vertex_buffer()));
    assert_eq!(terrain.num_indices(), 6);
    assert_eq!(
        call.draw,
        Draw::Indexed {
            buffer: terrain.index_buffer(),
            format: IndexFormat::Uint16,
            indices: Span { start: 0, end: 6 },
            base_vertex: 0,
            instances: Span { start: 0, end: 1 },
        }
    );
}

#[test]
fn frame_after_new_targets_draws_on_the_new_color_target_only() {
    let (_device, mut scene) = scene();
    let old = targets(800, 600);
    let mut new = targets(1024, 768);
    new.color.id = 8;
    let _ = scene.draw(identity(), &old);
    let frame = scene.draw(identity(), &new);
    for commands in frame.command_buffers.iter() {
        assert_eq!(commands.pass.target, new.color);
        assert_eq!((commands.pass.target.width, commands.pass.target.height), (1024, 768));
    }
}

#[test]
fn targets_are_well_formed_when_the_extent_is_the_size_of_both_attachments() {
    assert!(targets(640, 480).is_well_formed());
    let mut t = targets(640, 480);
    t.depth.height = 481;
    assert!(!t.is_well_formed());
    let mut t = targets(640, 480);
    t.color.width = 1;
    assert!(!t.is_well_formed());
    let mut t = targets(640, 480);
    t.extent.depth_or_array_layers = 2;
    assert!(!t.is_well_formed());
}
