//! The textured terrain.
//!
//! The terrain is a square in the plane `y = 0`, made of two triangles that
//! share a diagonal. Its texture coordinates run past 1, and its sampler
//! repeats the texture, so the image tiles over the square.

use crate::bytes::{indices_to_bytes, is_indices_image, is_words_image, words_to_bytes};
use crate::command::{CommandBuffer, Draw, DrawCall, RenderPass, Span};
use crate::device::{
    texels_fit, BindGroupEntry, BindGroupId, BindGroupLayoutEntry, BindGroupLayoutId,
    BindingResource, BindingType, BufferId, Device, DeviceView, RenderPipeline, RenderPipelineId,
    Sampler, SamplerId, TextureId,
};
use crate::target::ScreenTargets;
use crate::types::{
    AddressMode, BufferUsage, Extent3d, FilterMode, IndexFormat, InputStepMode, LoadOp,
    Operations, PrimitiveTopology, Shader, ShaderStage, TextureFormat, VertexAttribute,
    VertexBufferLayout, VertexFormat,
};
use crate::uniforms::F32_ONE;
use vstd::array::array_as_slice;
use vstd::prelude::*;

verus! {

/// Bit pattern of the 32-bit float `-1.0`.
pub const F32_NEG_ONE: u32 = 0xBF80_0000;

/// Bit pattern of the 32-bit float `0.0`.
pub const F32_ZERO: u32 = 0;

/// Bit pattern of the 32-bit float `4.0`: how often the texture repeats
/// along each side of the terrain.
pub const F32_TILES: u32 = 0x4080_0000;

/// Bit pattern of the 32-bit float `+inf`, which lies above every finite
/// positive float.
pub const F32_INFINITY: u32 = 0x7F80_0000;

/// Bytes in one vertex.
pub const VERTEX_SIZE: u64 = 20;

/// Indices that the terrain draws.
pub const NUM_INDICES: u32 = 6;

/// One corner of the terrain: a position and a texture coordinate, as the
/// bit patterns of 32-bit floats.
#[derive(Clone, Copy, Debug, PartialEq, Eq)]
pub struct Vertex {
    pub position: [u32; 3],
    pub tex_coords: [u32; 2],
}

/// The bit pattern is that of a finite float greater than 1. Among positive
/// floats the order of the bit patterns is the order of the values.
pub open spec fn above_one(bits: u32) -> bool {
    F32_ONE < bits < F32_INFINITY
}

/// The attributes of a vertex: the position at shader input 0, the texture
/// coordinate behind it at shader input 1.
pub open spec fn vertex_attributes() -> Seq<VertexAttribute> {
    seq![
        VertexAttribute { offset: 0, shader_location: 0, format: VertexFormat::Float32x3 },
        VertexAttribute { offset: 12, shader_location: 1, format: VertexFormat::Float32x2 },
    ]
}

/// The layout is the layout of a buffer of [`Vertex`].
pub open spec fn is_vertex_layout(layout: VertexBufferLayout) -> bool {
    &&& layout.array_stride == VERTEX_SIZE
    &&& layout.step_mode == InputStepMode::Vertex
    &&& layout.attributes@ == vertex_attributes()
}

/// The four corners of the terrain, counter-clockwise seen from above.
pub open spec fn quad_vertices() -> Seq<Vertex> {
    seq![
        Vertex {
            position: [F32_NEG_ONE, F32_ZERO, F32_NEG_ONE],
            tex_coords: [F32_ZERO, F32_ZERO],
        },
        Vertex { position: [F32_ONE, F32_ZERO, F32_NEG_ONE], tex_coords: [F32_TILES, F32_ZERO] },
        Vertex { position: [F32_ONE, F32_ZERO, F32_ONE], tex_coords: [F32_TILES, F32_TILES] },
        Vertex { position: [F32_NEG_ONE, F32_ZERO, F32_ONE], tex_coords: [F32_ZERO, F32_TILES] },
    ]
}

/// The two triangles of the terrain: corners 0, 1, 2 and corners 0, 2, 3.
pub open spec fn quad_indices() -> Seq<u16> {
    seq![0u16, 1u16, 2u16, 0u16, 2u16, 3u16]
}

/// The words of a sequence of vertices: five for each, the position first.
pub open spec fn mesh_words(vertices: Seq<Vertex>) -> Seq<u32> {
    Seq::new(5 * vertices.len(), |i: int| vertices[i / 5].spec_words()[i % 5])
}

impl Vertex {
    /// The five words of the vertex as they lie in a vertex buffer.
    pub open spec fn spec_words(self) -> Seq<u32> {
        seq![
            self.position[0],
            self.position[1],
            self.position[2],
            self.tex_coords[0],
            self.tex_coords[1],
        ]
    }

    /// The layout of a vertex buffer that holds vertices of this type.
    pub fn desc() -> (layout: VertexBufferLayout)
        ensures
            is_vertex_layout(layout),
            layout.well_formed(),
    {
        let mut attributes: Vec<VertexAttribute> = Vec::new();
        attributes.push(
            VertexAttribute { offset: 0, shader_location: 0, format: VertexFormat::Float32x3 },
        );
        attributes.push(
            VertexAttribute { offset: 12, shader_location: 1, format: VertexFormat::Float32x2 },
        );
        assert(attributes@ =~= vertex_attributes());
        VertexBufferLayout {
            array_stride: VERTEX_SIZE,
            step_mode: InputStepMode::Vertex,
            attributes,
        }
    }
}

/// The corners of the terrain.
pub fn vertices() -> (corners: [Vertex; 4])
    ensures
        corners@ == quad_vertices(),
        exists|i: int, j: int| 0 <= i < 4 && 0 <= j < 2 && above_one(corners@[i].tex_coords[j]),
{
    let corners = [
        Vertex { position: [F32_NEG_ONE, F32_ZERO, F32_NEG_ONE], tex_coords: [F32_ZERO, F32_ZERO] },
        Vertex { position: [F32_ONE, F32_ZERO, F32_NEG_ONE], tex_coords: [F32_TILES, F32_ZERO] },
        Vertex { position: [F32_ONE, F32_ZERO, F32_ONE], tex_coords: [F32_TILES, F32_TILES] },
        Vertex { position: [F32_NEG_ONE, F32_ZERO, F32_ONE], tex_coords: [F32_ZERO, F32_TILES] },
    ];
    assert(above_one(corners@[1].tex_coords[0]));
    corners
}

/// The indices of the terrain's two triangles. Every index names one of
/// the four corners.
pub fn indices() -> (list: [u16; 6])
    ensures
        list@ == quad_indices(),
        list@.len() == NUM_INDICES,
        forall|i: int| 0 <= i < 6 ==> list@[i] < 4,
{
    let list: [u16; 6] = [0, 1, 2, 0, 2, 3];
    list
}

/// The words of the vertices, as they lie in a vertex buffer.
pub fn mesh_to_words(vertices: &[Vertex]) -> (words: Vec<u32>)
    ensures
        words@ == mesh_words(vertices@),
{
    let mut words: Vec<u32> = Vec::new();
    let mut i: usize = 0;
    while i < vertices.len()
        invariant
            i <= vertices.len(),
            words@.len() == 5 * i,
            forall|k: int| 0 <= k < 5 * i ==> words@[k] == vertices@[k / 5].spec_words()[k % 5],
        decreases vertices.len() - i,
    {
        let v = vertices[i];
        words.push(v.position[0]);
        words.push(v.position[1]);
        words.push(v.position[2]);
        words.push(v.tex_coords[0]);
        words.push(v.tex_coords[1]);
        i += 1;
    }
    words
}

/// A decoded image: its texels row by row, four bytes each.
#[derive(Debug, PartialEq, Eq)]
pub struct Image {
    format: TextureFormat,
    width: u32,
    height: u32,
    pixels: Vec<u8>,
}

impl Image {
    /// The format of the texels.
    pub closed spec fn spec_format(&self) -> TextureFormat {
        self.format
    }

    /// Texels in a row.
    pub closed spec fn spec_width(&self) -> u32 {
        self.width
    }

    /// Rows.
    pub closed spec fn spec_height(&self) -> u32 {
        self.height
    }

    /// The bytes of the texels, row by row.
    pub closed spec fn spec_pixels(&self) -> Seq<u8> {
        self.pixels@
    }

    /// The size of the texture that holds the image.
    pub open spec fn extent(&self) -> Extent3d {
        Extent3d { width: self.spec_width(), height: self.spec_height(), depth_or_array_layers: 1 }
    }

    /// The image is not empty and has exactly the bytes of its texels.
    pub open spec fn well_formed(&self) -> bool {
        texels_fit(self.extent(), self.spec_format(), self.spec_pixels().len())
    }

    /// An image of the given size. There is none if the size is empty or
    /// the bytes are not those of `width * height` texels.
    pub fn new(format: TextureFormat, width: u32, height: u32, pixels: Vec<u8>) -> (image: Option<
        Image,
    >)
        ensures
            image is Some <==> texels_fit(
                Extent3d { width, height, depth_or_array_layers: 1 },
                format,
                pixels@.len(),
            ),
            image matches Some(i) ==> {
                &&& i.well_formed()
                &&& i.spec_format() == format
                &&& i.spec_width() == width
                &&& i.spec_height() == height
                &&& i.spec_pixels() == pixels@
            },
    {
        if width == 0 || height == 0 {
            return None;
        }
        assert(width * height * 4 <= 0xFFFF_FFFF * 0xFFFF_FFFF * 4) by (nonlinear_arith)
            requires
                width <= 0xFFFF_FFFF,
                height <= 0xFFFF_FFFF,
        ;
        let texels: u128 = (width as u128) * (height as u128) * 4;
        if pixels.len() as u128 != texels {
            return None;
        }
        Some(Image { format, width, height, pixels })
    }

    /// The format of the texels.
    pub fn format(&self) -> (format: TextureFormat)
        ensures
            format == self.spec_format(),
    {
        self.format
    }

    /// Texels in a row.
    pub fn width(&self) -> (width: u32)
        ensures
            width == self.spec_width(),
    {
        self.width
    }

    /// Rows.
    pub fn height(&self) -> (height: u32)
        ensures
            height == self.spec_height(),
    {
        self.height
    }

    /// The bytes of the texels, row by row.
    pub fn pixels(&self) -> (pixels: &Vec<u8>)
        ensures
            pixels@ == self.spec_pixels(),
    {
        &self.pixels
    }
}

/// The bindings of the terrain's own layout: the texture at binding 0 and
/// its sampler at binding 1, both for the fragment stage.
pub open spec fn terrain_layout_entries() -> Seq<BindGroupLayoutEntry> {
    seq![
        BindGroupLayoutEntry {
            binding: 0,
            visibility: ShaderStage::Fragment,
            ty: BindingType::Texture,
        },
        BindGroupLayoutEntry {
            binding: 1,
            visibility: ShaderStage::Fragment,
            ty: BindingType::Sampler,
        },
    ]
}

/// The terrain's sampler: it repeats the texture in every direction.
pub open spec fn terrain_sampler() -> Sampler {
    Sampler {
        address_mode_u: AddressMode::Repeat,
        address_mode_v: AddressMode::Repeat,
        address_mode_w: AddressMode::Repeat,
        mag_filter: FilterMode::Linear,
        min_filter: FilterMode::Nearest,
        mipmap_filter: FilterMode::Nearest,
    }
}

/// A buffer that is used as a vertex buffer and nothing else.
pub open spec fn vertex_usage() -> BufferUsage {
    BufferUsage { vertex: true, index: false, uniform: false, copy_dst: false }
}

/// A buffer that is used as an index buffer and nothing else.
pub open spec fn index_usage() -> BufferUsage {
    BufferUsage { vertex: false, index: true, uniform: false, copy_dst: false }
}

/// A drawable that draws the textured terrain.
#[derive(Clone, Copy, Debug, PartialEq, Eq)]
pub struct Terrain {
    render_pipeline: RenderPipelineId,
    vertex_buffer: BufferId,
    num_indices: u32,
    index_buffer: BufferId,
    texture: TextureId,
    sampler: SamplerId,
    bind_group: BindGroupId,
}

impl Terrain {
    /// The terrain's pipeline.
    pub closed spec fn spec_pipeline(&self) -> RenderPipelineId {
        self.render_pipeline
    }

    /// The buffer of the four corners.
    pub closed spec fn spec_vertex_buffer(&self) -> BufferId {
        self.vertex_buffer
    }

    /// How many indices a draw call draws.
    pub closed spec fn spec_num_indices(&self) -> u32 {
        self.num_indices
    }

    /// The buffer of the indices.
    pub closed spec fn spec_index_buffer(&self) -> BufferId {
        self.index_buffer
    }

    /// The terrain's texture.
    pub closed spec fn spec_texture(&self) -> TextureId {
        self.texture
    }

    /// The sampler of the terrain's texture.
    pub closed spec fn spec_sampler(&self) -> SamplerId {
        self.sampler
    }

    /// The bind group of slot 1: the texture and its sampler.
    pub closed spec fn spec_bind_group(&self) -> BindGroupId {
        self.bind_group
    }

    /// The layout that the pipeline has in slot 0.
    pub open spec fn uniforms_layout(&self, device: DeviceView) -> BindGroupLayoutId {
        device.render_pipeline(self.spec_pipeline()).uniforms_layout
    }

    /// The format of the color target that the pipeline writes.
    pub open spec fn target_format(&self, device: DeviceView) -> TextureFormat {
        device.render_pipeline(self.spec_pipeline()).target
    }

    /// The terrain's resources are on the device as [`Terrain::new`] makes
    /// them.
    pub open spec fn valid_on(&self, device: DeviceView) -> bool {
        let pipeline = device.render_pipeline(self.spec_pipeline());
        let group = device.bind_group(self.spec_bind_group());
        &&& device.has_render_pipeline(self.spec_pipeline())
        &&& pipeline.shader == Shader::Terrain
        &&& pipeline.private_layout == Some(group.layout)
        &&& pipeline.vertex_buffer matches Some(layout) && is_vertex_layout(layout)
        &&& pipeline.topology == PrimitiveTopology::TriangleList
        &&& pipeline.depth_stencil is None
        &&& device.has_buffer(self.spec_vertex_buffer())
        &&& device.buffer(self.spec_vertex_buffer()).usage == vertex_usage()
        &&& is_words_image(
            device.buffer(self.spec_vertex_buffer()).contents@,
            mesh_words(quad_vertices()),
        )
        &&& device.has_buffer(self.spec_index_buffer())
        &&& device.buffer(self.spec_index_buffer()).usage == index_usage()
        &&& is_indices_image(device.buffer(self.spec_index_buffer()).contents@, quad_indices())
        &&& self.spec_num_indices() == NUM_INDICES
        &&& device.has_texture(self.spec_texture())
        &&& device.has_sampler(self.spec_sampler())
        &&& device.sampler(self.spec_sampler()) == terrain_sampler()
        &&& device.has_bind_group(self.spec_bind_group())
        &&& device.has_bind_group_layout(group.layout)
        &&& device.bind_group_layout(group.layout).entries@ == terrain_layout_entries()
        &&& group.entries@ == seq![
            BindGroupEntry {
                binding: 0,
                resource: BindingResource::TextureView(self.spec_texture()),
            },
            BindGroupEntry { binding: 1, resource: BindingResource::Sampler(self.spec_sampler()) },
        ]
    }

    /// The command buffer that [`Terrain::draw`] records.
    pub open spec fn recorded(
        &self,
        targets: ScreenTargets,
        uniforms_bg: BindGroupId,
    ) -> CommandBuffer {
        CommandBuffer {
            pass: RenderPass {
                target: targets.color,
                ops: Operations { load: LoadOp::Load, store: true },
                draw: Some(
                    DrawCall {
                        pipeline: self.spec_pipeline(),
                        uniforms: uniforms_bg,
                        private: Some(self.spec_bind_group()),
                        vertex_buffer: Some(self.spec_vertex_buffer()),
                        draw: Draw::Indexed {
                            buffer: self.spec_index_buffer(),
                            format: IndexFormat::Uint16,
                            indices: Span { start: 0, end: self.spec_num_indices() },
                            base_vertex: 0,
                            instances: Span { start: 0, end: 1 },
                        },
                    },
                ),
            },
        }
    }

    /// Creates the terrain's resources: the texture with the image in it,
    /// the repeating sampler, the layout and bind group of slot 1, the
    /// pipeline for a color target of the given format with the layout of
    /// the camera uniforms in slot 0, and the vertex and index buffers.
    pub fn new(
        device: &mut Device,
        color_format: TextureFormat,
        uniforms_bgl: BindGroupLayoutId,
        image: Image,
    ) -> (terrain: Terrain)
        requires
            old(device)@.well_formed(),
            old(device)@.has_bind_group_layout(uniforms_bgl),
            image.well_formed(),
        ensures
            final(device)@.well_formed(),
            final(device)@.extends(old(device)@),
            terrain.valid_on(final(device)@),
            terrain.target_format(final(device)@) == color_format,
            terrain.uniforms_layout(final(device)@) == uniforms_bgl,
            final(device)@.texture(terrain.spec_texture()).size == image.extent(),
            final(device)@.texture(terrain.spec_texture()).mip_level_count == 1,
            final(device)@.texture(terrain.spec_texture()).format == image.spec_format(),
            final(device)@.texture(terrain.spec_texture()).data@ == image.spec_pixels(),
            terrain.spec_pipeline().0 == old(device)@.render_pipelines.len(),
            terrain.spec_vertex_buffer().0 == old(device)@.buffers.len(),
            terrain.spec_index_buffer().0 == old(device)@.buffers.len() + 1,
            terrain.spec_texture().0 == old(device)@.textures.len(),
            terrain.spec_sampler().0 == old(device)@.samplers.len(),
            terrain.spec_bind_group().0 == old(device)@.bind_groups.len(),
            final(device)@.buffers.len() == old(device)@.buffers.len() + 2,
            final(device)@.textures.len() == old(device)@.textures.len() + 1,
            final(device)@.samplers.len() == old(device)@.samplers.len() + 1,
            final(device)@.bind_group_layouts.len() == old(device)@.bind_group_layouts.len() + 1,
            final(device)@.bind_groups.len() == old(device)@.bind_groups.len() + 1,
            final(device)@.render_pipelines.len() == old(device)@.render_pipelines.len() + 1,
    {
        let size = Extent3d { width: image.width, height: image.height, depth_or_array_layers: 1 };
        let texture = device.create_texture_with_data(size, image.format, image.pixels);
        let sampler = device.create_sampler(
            Sampler {
                address_mode_u: AddressMode::Repeat,
                address_mode_v: AddressMode::Repeat,
                address_mode_w: AddressMode::Repeat,
                mag_filter: FilterMode::Linear,
                min_filter: FilterMode::Nearest,
                mipmap_filter: FilterMode::Nearest,
            },
        );

        let mut slots: Vec<BindGroupLayoutEntry> = Vec::new();
        slots.push(
            BindGroupLayoutEntry {
                binding: 0,
                visibility: ShaderStage::Fragment,
                ty: BindingType::Texture,
            },
        );
        slots.push(
            BindGroupLayoutEntry {
                binding: 1,
                visibility: ShaderStage::Fragment,
                ty: BindingType::Sampler,
            },
        );
        assert(slots@ =~= terrain_layout_entries());
        let layout = device.create_bind_group_layout(slots);

        let mut entries: Vec<BindGroupEntry> = Vec::new();
        entries.push(
            BindGroupEntry { binding: 0, resource: BindingResource::TextureView(texture) },
        );
        entries.push(BindGroupEntry { binding: 1, resource: BindingResource::Sampler(sampler) });
        assert(entries@ =~= seq![
            BindGroupEntry { binding: 0, resource: BindingResource::TextureView(texture) },
            BindGroupEntry { binding: 1, resource: BindingResource::Sampler(sampler) },
        ]);
        let bind_group = device.create_bind_group(layout, entries);

        let vertex_layout = Vertex::desc();
        let render_pipeline = device.create_render_pipeline(
            RenderPipeline {
                shader: Shader::Terrain,
                uniforms_layout: uniforms_bgl,
                private_layout: Some(layout),
                vertex_buffer: Some(vertex_layout),
                target: color_format,
                topology: PrimitiveTopology::TriangleList,
                depth_stencil: None,
            },
        );

        let corners = vertices();
        let words = mesh_to_words(array_as_slice(&corners));
        let vertex_buffer = device.create_buffer_init(
            words_to_bytes(words.as_slice()),
            BufferUsage { vertex: true, index: false, uniform: false, copy_dst: false },
        );
        let list = indices();
        let index_buffer = device.create_buffer_init(
            indices_to_bytes(array_as_slice(&list)),
            BufferUsage { vertex: false, index: true, uniform: false, copy_dst: false },
        );
        Terrain {
            render_pipeline,
            vertex_buffer,
            num_indices: NUM_INDICES,
            index_buffer,
            texture,
            sampler,
            bind_group,
        }
    }

    /// Records the terrain's pass on the color target of the frame. The
    /// pass loads the target, so that what earlier passes drew stays; it
    /// binds the camera uniforms in slot 0, the texture and sampler in slot
    /// 1 and both buffers, and draws all indices.
    pub fn draw(&self, targets: &ScreenTargets, uniforms_bg: BindGroupId) -> (commands:
        CommandBuffer)
        ensures
            commands == self.recorded(*targets, uniforms_bg),
    {
        CommandBuffer {
            pass: RenderPass {
                target: targets.color,
                ops: Operations { load: LoadOp::Load, store: true },
                draw: Some(
                    DrawCall {
                        pipeline: self.render_pipeline,
                        uniforms: uniforms_bg,
                        private: Some(self.bind_group),
                        vertex_buffer: Some(self.vertex_buffer),
                        draw: Draw::Indexed {
                            buffer: self.index_buffer,
                            format: IndexFormat::Uint16,
                            indices: Span { start: 0, end: self.num_indices },
                            base_vertex: 0,
                            instances: Span { start: 0, end: 1 },
                        },
                    },
                ),
            },
        }
    }

    /// What the terrain records is accepted by the device it stands on,
    /// whenever the bind group in slot 0 has the layout of the pipeline's
    /// slot 0 and the target has the format that the pipeline writes; and
    /// the draw call covers the whole index buffer.
    pub proof fn lemma_recorded_valid(
        &self,
        device: DeviceView,
        targets: ScreenTargets,
        uniforms_bg: BindGroupId,
    )
        requires
            self.valid_on(device),
            device.has_bind_group(uniforms_bg),
            device.bind_group(uniforms_bg).layout == self.uniforms_layout(device),
            targets.color.format == self.target_format(device),
        ensures
            self.recorded(targets, uniforms_bg).pass.valid_on(device),
            self.recorded(targets, uniforms_bg).pass.preserves_target(),
            self.recorded(targets, uniforms_bg).pass.target == targets.color,
            self.spec_num_indices() * IndexFormat::Uint16.size() == device.buffer(
                self.spec_index_buffer(),
            ).contents@.len(),
    {
    }

    /// A terrain that stands on a device stands on every device that
    /// extends it.
    pub proof fn lemma_valid_on_extension(&self, later: DeviceView, earlier: DeviceView)
        requires
            self.valid_on(earlier),
            later.extends(earlier),
        ensures
            self.valid_on(later),
            self.uniforms_layout(later) == self.uniforms_layout(earlier),
            self.target_format(later) == self.target_format(earlier),
    {
    }

    /// The terrain's pipeline.
    pub fn render_pipeline(&self) -> (id: RenderPipelineId)
        ensures
            id == self.spec_pipeline(),
    {
        self.render_pipeline
    }

    /// The buffer of the four corners.
    pub fn vertex_buffer(&self) -> (id: BufferId)
        ensures
            id == self.spec_vertex_buffer(),
    {
        self.vertex_buffer
    }

    /// The buffer of the indices.
    pub fn index_buffer(&self) -> (id: BufferId)
        ensures
            id == self.spec_index_buffer(),
    {
        self.index_buffer
    }

    /// How many indices a draw call draws.
    pub fn num_indices(&self) -> (count: u32)
        ensures
            count == self.spec_num_indices(),
    {
        self.num_indices
    }

    /// The bind group of slot 1: the texture and its sampler.
    pub fn bind_group(&self) -> (id: BindGroupId)
        ensures
            id == self.spec_bind_group(),
    {
        self.bind_group
    }
}

} // verus!
