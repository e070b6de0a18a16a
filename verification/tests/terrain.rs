use autonomy::device::{
    BindGroupEntry, BindGroupLayoutEntry, BindingResource, BindingType, Device, Sampler,
};
use autonomy::terrain::{indices, mesh_to_words, vertices, Image, Terrain, Vertex};
use autonomy::types::{
    AddressMode, BufferUsage, Extent3d, FilterMode, InputStepMode, PrimitiveTopology, Shader,
    ShaderStage, TextureFormat, VertexAttribute, VertexFormat,
};
use autonomy::uniforms::UniformStore;

fn checker() -> Image {
    let pixels: Vec<u8> = vec![
        0, 0, 0, 255, 255, 255, 255, 255, //
        255, 255, 255, 255, 0, 0, 0, 255,
    ];
    Image::new(TextureFormat::Rgba8UnormSrgb, 2, 2, pixels).unwrap()
}

fn terrain() -> (Device, UniformStore, Terrain) {
    let mut device = Device::new();
    let store = UniformStore::new(&mut device, [[0u32; 4]; 4]);
    let terrain = Terrain::new(&mut device, TextureFormat::Bgra8Unorm, store.layout(), checker());
    (device, store, terrain)
}

#[test]
fn vertex_layout_has_position_then_texture_coordinate() {
    let layout = Vertex::desc();
    assert_eq!(layout.array_stride, 20);
    assert_eq!(layout.array_stride as usize, std::mem::size_of::<Vertex>());
    assert_eq!(layout.step_mode, InputStepMode::Vertex);
    assert_eq!(
        layout.attributes,
        vec![
            VertexAttribute { offset: 0, shader_location: 0, format: VertexFormat::Float32x3 },
            VertexAttribute { offset: 12, shader_location: 1, format: VertexFormat::Float32x2 },
        ]
    );
    assert_eq!(VertexFormat::Float32x3.size(), 12);
    assert_eq!(VertexFormat::Float32x2.size(), 8);
}

#[test]
fn terrain_is_a_square_in_the_ground_plane() {
    let corners = vertices();
    let positions: Vec<[f32; 3]> = corners
        .iter()
        .map(|v| {
            [
                f32::from_bits(v.position[0]),
                f32::from_bits(v.position[1]),
                f32::from_bits(v.position[2]),
            ]
        })
        .collect();
    assert_eq!(
        positions,
        vec![[-1.0, 0.0, -1.0], [1.0, 0.0, -1.0], [1.0, 0.0, 1.0], [-1.0, 0.0, 1.0]]
    );
}

#[test]
fn texture_coordinates_tile_four_times() {
    let corners = vertices();
    let coords: Vec<[f32; 2]> = corners
        .iter()
        .map(|v| [f32::from_bits(v.tex_coords[0]), f32::from_bits(v.tex_coords[1])])
        .collect();
    assert_eq!(coords, vec![[0.0, 0.0], [4.0, 0.0], [4.0, 4.0], [0.0, 4.0]]);
    assert!(coords.iter().flatten().any(|c| *c > 1.0));
}

#[test]
fn indices_make_two_triangles_of_the_four_corners() {
    let list = indices();
    assert_eq!(list, [0, 1, 2, 0, 2, 3]);
    assert!(list.iter().all(|i| (*i as usize) < vertices().len()));
}

#[test]
fn mesh_words_are_five_per_vertex() {
    let v = Vertex { position: [1, 2, 3], tex_coords: [4, 5] };
    let w = Vertex { position: [6, 7, 8], tex_coords: [9, 10] };
    assert_eq!(mesh_to_words(&[v, w]), vec![1, 2, 3, 4, 5, 6, 7, 8, 9, 10]);
    assert_eq!(mesh_to_words(&[]), Vec::<u32>::new());
}

#[test]
fn image_needs_four_bytes_for_every_texel() {
    let image = Image::new(TextureFormat::Rgba8UnormSrgb, 2, 3, vec![9u8; 24]).unwrap();
    assert_eq!(image.format(), TextureFormat::Rgba8UnormSrgb);
    assert_eq!((image.width(), image.height()), (2, 3));
    assert_eq!(image.pixels(), &vec![9u8; 24]);
    assert_eq!(Image::new(TextureFormat::Rgba8UnormSrgb, 2, 3, vec![9u8; 23]), None);
    assert_eq!(Image::new(TextureFormat::Rgba8UnormSrgb, 2, 3, vec![9u8; 25]), None);
}

#[test]
fn image_is_never_empty() {
    assert_eq!(Image::new(TextureFormat::Rgba8Unorm, 0, 3, Vec::new()), None);
    assert_eq!(Image::new(TextureFormat::Rgba8Unorm, 3, 0, Vec::new()), None);
    assert_eq!(Image::new(TextureFormat::Rgba8Unorm, 0, 0, Vec::new()), None);
    assert!(Image::new(TextureFormat::Rgba8Unorm, 1, 1, vec![0u8; 4]).is_some());
}

#[test]
fn image_size_does_not_wrap() {
    // 65536 * 65536 * 4 is 2^34, which is 0 in 32 bits.
    assert_eq!(Image::new(TextureFormat::Rgba8Unorm, 65536, 65536, Vec::new()), None);
}

#[test]
fn terrain_uploads_the_image_as_its_texture() {
    let (device, _store, _terrain) = terrain();
    assert_eq!(device.textures().len(), 1);
    let texture = &device.textures()[0];
    assert_eq!(texture.size, Extent3d { width: 2, height: 2, depth_or_array_layers: 1 });
    assert_eq!(texture.format, TextureFormat::Rgba8UnormSrgb);
    assert_eq!(texture.mip_level_count, 1);
    assert_eq!(&texture.data, checker().pixels());
}

#[test]
fn terrain_sampler_repeats() {
    let (device, _store, _terrain) = terrain();
    assert_eq!(
        device.samplers(),
        &vec![Sampler {
            address_mode_u: AddressMode::Repeat,
            address_mode_v: AddressMode::Repeat,
            address_mode_w: AddressMode::Repeat,
            mag_filter: FilterMode::Linear,
            min_filter: FilterMode::Nearest,
            mipmap_filter: FilterMode::Nearest,
        }]
    );
}

#[test]
fn terrain_binds_texture_and_sampler_in_slot_one() {
    let (device, store, terrain) = terrain();
    let group = &device.bind_groups()[terrain.bind_group().0];
    assert_ne!(terrain.bind_group(), store.bind_group());
    assert_ne!(group.layout, store.layout());
    assert_eq!(group.entries.len(), 2);
    assert_eq!(group.entries[0].binding, 0);
    assert!(matches!(group.entries[0].resource, BindingResource::TextureView(t) if t.0 == 0));
    assert_eq!(group.entries[1].binding, 1);
    assert!(matches!(group.entries[1].resource, BindingResource::Sampler(s) if s.0 == 0));
    assert_eq!(
        group.entries,
        vec![
            BindGroupEntry {
                binding: 0,
                resource: BindingResource::TextureView(autonomy::device::TextureId(0))
            },
            BindGroupEntry {
                binding: 1,
                resource: BindingResource::Sampler(autonomy::device::SamplerId(0))
            },
        ]
    );
    assert_eq!(
        device.bind_group_layouts()[group.layout.0].entries,
        vec![
            BindGroupLayoutEntry {
                binding: 0,
                visibility: ShaderStage::Fragment,
                ty: BindingType::Texture
            },
            BindGroupLayoutEntry {
                binding: 1,
                visibility: ShaderStage::Fragment,
                ty: BindingType::Sampler
            },
        ]
    );
}

#[test]
fn terrain_pipeline_has_uniforms_in_slot_zero_and_its_own_layout_in_slot_one() {
    let (device, store, terrain) = terrain();
    let pipeline = &device.render_pipelines()[terrain.render_pipeline().0];
    assert_eq!(pipeline.shader, Shader::Terrain);
    assert_eq!(pipeline.uniforms_layout, store.layout());
    assert_eq!(
        pipeline.private_layout,
        Some(device.bind_groups()[terrain.bind_group().0].layout)
    );
    assert_eq!(pipeline.vertex_buffer, Some(Vertex::desc()));
    assert_eq!(pipeline.target, TextureFormat::Bgra8Unorm);
    assert_eq!(pipeline.topology, PrimitiveTopology::TriangleList);
    assert_eq!(pipeline.depth_stencil, None);
}

#[test]
fn vertex_buffer_holds_the_corners_in_machine_order() {
    let (device, _store, terrain) = terrain();
    let buffer = &device.buffers()[terrain.vertex_buffer().0];
    assert_eq!(
        buffer.usage,
        BufferUsage { vertex: true, index: false, uniform: false, copy_dst: false }
    );
    assert_eq!(buffer.contents.len(), 4 * 20);
    let floats: Vec<f32> = buffer
        .contents
        .chunks(4)
        .map(|b| f32::from_ne_bytes([b[0], b[1], b[2], b[3]]))
        .collect();
    assert_eq!(
        floats,
        vec![
            -1.0, 0.0, -1.0, 0.0, 0.0, //
            1.0, 0.0, -1.0, 4.0, 0.0, //
            1.0, 0.0, 1.0, 4.0, 4.0, //
            -1.0, 0.0, 1.0, 0.0, 4.0,
        ]
    );
}

#[test]
fn index_buffer_holds_the_indices_in_machine_order() {
    let (device, _store, terrain) = terrain();
    let buffer = &device.buffers()[terrain.index_buffer().0];
    assert_eq!(
        buffer.usage,
        BufferUsage { vertex: false, index: true, uniform: false, copy_dst: false }
    );
    let expected: Vec<u8> =
        [0u16, 1, 2, 0, 2, 3].iter().flat_map(|i| i.to_ne_bytes()).collect();
    assert_eq!(buffer.contents, expected);
    assert_eq!(buffer.contents.len(), 2 * terrain.num_indices() as usize);
}

#[test]
fn shader_programs_have_fixed_entry_points() {
    assert_eq!(Shader::Main.path(), "res/shader/main.wgsl");
    assert_eq!(Shader::Terrain.path(), "res/shader/terrain.wgsl");
    for shader in [Shader::Main, Shader::Terrain] {
        assert_eq!(shader.vertex_entry_point(), "vs_main");
        assert_eq!(shader.fragment_entry_point(), "fs_main");
    }
}
