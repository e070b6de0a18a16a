use autonomy::device::{BindGroupEntry, BindingResource, BindingType, Device};
use autonomy::target::{ColorTarget, DepthTarget, ScreenTargets};
use autonomy::terrain::Image;
use autonomy::types::{BufferUsage, Extent3d, ShaderStage, TextureFormat};
use autonomy::uniforms::{UniformStore, Uniforms};
use autonomy::Autonomy;

fn bits(m: [[f32; 4]; 4]) -> [[u32; 4]; 4] {
    let mut out = [[0u32; 4]; 4];
    for c in 0..4 {
        for r in 0..4 {
            out[c][r] = m[c][r].to_bits();
        }
    }
    out
}

fn floats(bytes: &[u8]) -> Vec<f32> {
    bytes.chunks(4).map(|b| f32::from_ne_bytes([b[0], b[1], b[2], b[3]])).collect()
}

/// The view-projection matrix of a right-handed camera, column by column,
/// with depth mapped to `[0, 1]`, worked out from the textbook formulas.
fn view_projection(
    eye: [f64; 3],
    target: [f64; 3],
    up: [f64; 3],
    fovy_degrees: f64,
    aspect: f64,
    near: f64,
    far: f64,
) -> [[f64; 4]; 4] {
    let sub = |a: [f64; 3], b: [f64; 3]| [a[0] - b[0], a[1] - b[1], a[2] - b[2]];
    let dot = |a: [f64; 3], b: [f64; 3]| a[0] * b[0] + a[1] * b[1] + a[2] * b[2];
    let cross = |a: [f64; 3], b: [f64; 3]| {
        [a[1] * b[2] - a[2] * b[1], a[2] * b[0] - a[0] * b[2], a[0] * b[1] - a[1] * b[0]]
    };
    let norm = |a: [f64; 3]| {
        let l = dot(a, a).sqrt();
        [a[0] / l, a[1] / l, a[2] / l]
    };
    let f = norm(sub(target, eye));
    let s = norm(cross(f, up));
    let u = cross(s, f);
    // Rows of the view matrix.
    let view = [
        [s[0], s[1], s[2], -dot(s, eye)],
        [u[0], u[1], u[2], -dot(u, eye)],
        [-f[0], -f[1], -f[2], dot(f, eye)],
        [0.0, 0.0, 0.0, 1.0],
    ];
    let t = 1.0 / (fovy_degrees.to_radians() / 2.0).tan();
    // Rows of the projection matrix, depth in [-1, 1].
    let proj = [
        [t / aspect, 0.0, 0.0, 0.0],
        [0.0, t, 0.0, 0.0],
        [0.0, 0.0, (far + near) / (near - far), 2.0 * far * near / (near - far)],
        [0.0, 0.0, -1.0, 0.0],
    ];
    // Rows of the matrix that maps depth from [-1, 1] to [0, 1].
    let depth = [
        [1.0, 0.0, 0.0, 0.0],
        [0.0, 1.0, 0.0, 0.0],
        [0.0, 0.0, 0.5, 0.5],
        [0.0, 0.0, 0.0, 1.0],
    ];
    let mul = |a: [[f64; 4]; 4], b: [[f64; 4]; 4]| {
        let mut m = [[0.0; 4]; 4];
        for r in 0..4 {
            for c in 0..4 {
                m[r][c] = (0..4).map(|k| a[r][k] * b[k][c]).sum();
            }
        }
        m
    };
    let rows = mul(depth, mul(proj, view));
    let mut columns = [[0.0; 4]; 4];
    for r in 0..4 {
        for c in 0..4 {
            columns[c][r] = rows[r][c];
        }
    }
    columns
}

fn cgmath_view_projection() -> [[f32; 4]; 4] {
    let correction = cgmath::Matrix4::new(
        1.0, 0.0, 0.0, 0.0, 0.0, 1.0, 0.0, 0.0, 0.0, 0.0, 0.5, 0.0, 0.0, 0.0, 0.5, 1.0f32,
    );
    let view = cgmath::Matrix4::look_at_rh(
        cgmath::Point3::new(0.0, 1.0, 2.0),
        cgmath::Point3::new(0.0, 0.0, 0.0),
        cgmath::Vector3::unit_y(),
    );
    let proj = cgmath::perspective(cgmath::Deg(45.0f32), 1.0, 0.1, 100.0);
    (correction * proj * view).into()
}

#[test]
fn written_uniforms_read_back_as_the_view_projection_of_the_camera() {
    let matrix = cgmath_view_projection();
    let mut device = Device::new();
    let mut store = UniformStore::new(&mut device, bits(matrix));
    let write = store.update(bits(matrix));
    let read_back = floats(&write.data);
    let expected = view_projection(
        [0.0, 1.0, 2.0],
        [0.0, 0.0, 0.0],
        [0.0, 1.0, 0.0],
        45.0,
        1.0,
        0.1,
        100.0,
    );
    assert_eq!(read_back.len(), 16);
    for c in 0..4 {
        for r in 0..4 {
            let got = read_back[4 * c + r] as f64;
            assert!(
                (got - expected[c][r]).abs() < 1e-5,
                "column {} row {}: {} is not {}",
                c,
                r,
                got,
                expected[c][r]
            );
        }
    }
}

#[test]
fn frame_write_carries_the_matrix_of_the_frame() {
    let identity = bits([
        [1.0, 0.0, 0.0, 0.0],
        [0.0, 1.0, 0.0, 0.0],
        [0.0, 0.0, 1.0, 0.0],
        [0.0, 0.0, 0.0, 1.0],
    ]);
    let matrix = cgmath_view_projection();
    let mut device = Device::new();
    let image = Image::new(TextureFormat::Rgba8UnormSrgb, 1, 1, vec![0, 0, 0, 255]).unwrap();
    let mut scene = Autonomy::new(&mut device, TextureFormat::Bgra8Unorm, identity, image);
    let targets = ScreenTargets {
        extent: Extent3d { width: 4, height: 4, depth_or_array_layers: 1 },
        color: ColorTarget { id: 0, width: 4, height: 4, format: TextureFormat::Bgra8Unorm },
        depth: DepthTarget { id: 0, width: 4, height: 4 },
    };
    let frame = scene.draw(bits(matrix), &targets);
    assert_eq!(frame.uniform_write.buffer, scene.uniforms().buffer());
    assert_eq!(frame.uniform_write.offset, 0);
    assert_eq!(frame.uniform_write.data.len(), 64);
    let flat: Vec<f32> = matrix.iter().flatten().copied().collect();
    assert_eq!(floats(&frame.uniform_write.data), flat);
    assert_eq!(scene.uniforms().words(), flat.iter().map(|f| f.to_bits()).collect::<Vec<u32>>());
}

#[test]
fn new_uniforms_hold_the_identity() {
    let words = Uniforms::new().words();
    let one = 0x3F80_0000u32;
    assert_eq!(words, vec![one, 0, 0, 0, 0, one, 0, 0, 0, 0, one, 0, 0, 0, 0, one]);
    assert_eq!(f32::from_bits(one), 1.0);
}

#[test]
fn updated_uniforms_hold_the_matrix_column_by_column() {
    let mut uniforms = Uniforms::new();
    let mut m = [[0u32; 4]; 4];
    for c in 0..4 {
        for r in 0..4 {
            m[c][r] = (10 * c + r) as u32;
        }
    }
    uniforms.update_view_proj(m);
    assert_eq!(
        uniforms.words(),
        vec![0, 1, 2, 3, 10, 11, 12, 13, 20, 21, 22, 23, 30, 31, 32, 33]
    );
}

#[test]
fn uniform_bytes_are_the_words_in_machine_order() {
    let mut uniforms = Uniforms::new();
    let mut m = [[0u32; 4]; 4];
    m[0][0] = 0x0102_0304;
    m[3][3] = 0xA0B0_C0D0;
    uniforms.update_view_proj(m);
    let bytes = uniforms.bytes();
    assert_eq!(bytes.len(), 64);
    assert_eq!(&bytes[0..4], &0x0102_0304u32.to_ne_bytes());
    assert_eq!(&bytes[60..64], &0xA0B0_C0D0u32.to_ne_bytes());
    assert!(bytes[4..60].iter().all(|b| *b == 0));
    let words: &[u32] = bytemuck::cast_slice(&bytes);
    assert_eq!(words.to_vec(), uniforms.words());
}

#[test]
fn uniform_store_creates_buffer_layout_and_bind_group() {
    let mut device = Device::new();
    let identity = Uniforms::new();
    let mut m = [[0u32; 4]; 4];
    for (i, w) in identity.words().iter().enumerate() {
        m[i / 4][i % 4] = *w;
    }
    let store = UniformStore::new(&mut device, m);
    assert_eq!(device.buffers().len(), 1);
    assert_eq!(device.bind_group_layouts().len(), 1);
    assert_eq!(device.bind_groups().len(), 1);
    assert_eq!(device.render_pipelines().len(), 0);

    let buffer = &device.buffers()[store.buffer().0];
    assert_eq!(buffer.contents, identity.bytes());
    assert_eq!(
        buffer.usage,
        BufferUsage { vertex: false, index: false, uniform: true, copy_dst: true }
    );

    let layout = &device.bind_group_layouts()[store.layout().0];
    assert_eq!(layout.entries.len(), 1);
    assert_eq!(layout.entries[0].binding, 0);
    assert_eq!(layout.entries[0].visibility, ShaderStage::Vertex);
    assert_eq!(layout.entries[0].ty, BindingType::UniformBuffer);

    let group = &device.bind_groups()[store.bind_group().0];
    assert_eq!(group.layout, store.layout());
    assert_eq!(
        group.entries,
        vec![BindGroupEntry { binding: 0, resource: BindingResource::Buffer(store.buffer()) }]
    );
}

#[test]
fn update_keeps_the_handles_and_replaces_the_matrix() {
    let mut device = Device::new();
    let mut store = UniformStore::new(&mut device, [[0u32; 4]; 4]);
    let (buffer, layout, group) = (store.buffer(), store.layout(), store.bind_group());
    let m = [[5u32; 4]; 4];
    let write = store.update(m);
    assert_eq!((store.buffer(), store.layout(), store.bind_group()), (buffer, layout, group));
    assert_eq!(store.words(), vec![5u32; 16]);
    assert_eq!(write.buffer, buffer);
    assert_eq!(write.offset, 0);
    assert_eq!(write.data.len(), 64);
    assert_eq!(device.buffers().len(), 1);
}
