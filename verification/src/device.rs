//! The resources of a device, as a register of what was created on it.
//!
//! Nothing here touches a graphics API. A [`Device`] records each resource
//! with the description it was created from and hands out its position as a
//! handle. A backend creates the real resources in the same order, so that a
//! handle names the same thing on both sides. The rules that a graphics API
//! would check when a resource is created are preconditions here, so a
//! register that was filled through this module is one that a backend can
//! create.

use crate::types::{
    AddressMode, BufferUsage, Extent3d, FilterMode, PrimitiveTopology, Shader, ShaderStage,
    TextureFormat, VertexBufferLayout,
};
use vstd::prelude::*;

verus! {

/// Handle of a buffer: its position in the register.
#[derive(Clone, Copy, Debug, PartialEq, Eq)]
pub struct BufferId(pub usize);

/// Handle of a texture.
#[derive(Clone, Copy, Debug, PartialEq, Eq)]
pub struct TextureId(pub usize);

/// Handle of a sampler.
#[derive(Clone, Copy, Debug, PartialEq, Eq)]
pub struct SamplerId(pub usize);

/// Handle of a bind group layout.
#[derive(Clone, Copy, Debug, PartialEq, Eq)]
pub struct BindGroupLayoutId(pub usize);

/// Handle of a bind group.
#[derive(Clone, Copy, Debug, PartialEq, Eq)]
pub struct BindGroupId(pub usize);

/// Handle of a render pipeline.
#[derive(Clone, Copy, Debug, PartialEq, Eq)]
pub struct RenderPipelineId(pub usize);

/// A buffer with the bytes it was created with.
#[derive(Debug, PartialEq, Eq)]
pub struct Buffer {
    pub contents: Vec<u8>,
    pub usage: BufferUsage,
}

/// A two-dimensional texture with the texels that are uploaded to it once,
/// row by row without padding. It is created for sampling.
#[derive(Debug, PartialEq, Eq)]
pub struct Texture {
    pub size: Extent3d,
    /// How many mip levels the texture has. Only the first is ever filled.
    pub mip_level_count: u32,
    pub format: TextureFormat,
    pub data: Vec<u8>,
}

/// A sampler.
#[derive(Clone, Copy, Debug, PartialEq, Eq)]
pub struct Sampler {
    pub address_mode_u: AddressMode,
    pub address_mode_v: AddressMode,
    pub address_mode_w: AddressMode,
    pub mag_filter: FilterMode,
    pub min_filter: FilterMode,
    pub mipmap_filter: FilterMode,
}

/// The kind of resource that a binding takes.
#[derive(Clone, Copy, Debug, PartialEq, Eq)]
pub enum BindingType {
    /// A whole buffer, read as uniform data.
    UniformBuffer,
    /// A view of a whole two-dimensional texture, sampled as floats.
    Texture,
    /// A filtering sampler.
    Sampler,
}

/// One binding of a bind group layout.
#[derive(Clone, Copy, Debug, PartialEq, Eq)]
pub struct BindGroupLayoutEntry {
    pub binding: u32,
    pub visibility: ShaderStage,
    pub ty: BindingType,
}

/// The bindings that a bind group of this layout provides.
#[derive(Debug, PartialEq, Eq)]
pub struct BindGroupLayout {
    pub entries: Vec<BindGroupLayoutEntry>,
}

/// The resource behind one binding of a bind group.
#[derive(Clone, Copy, Debug, PartialEq, Eq)]
pub enum BindingResource {
    Buffer(BufferId),
    TextureView(TextureId),
    Sampler(SamplerId),
}

/// One binding of a bind group.
#[derive(Clone, Copy, Debug, PartialEq, Eq)]
pub struct BindGroupEntry {
    pub binding: u32,
    pub resource: BindingResource,
}

/// Resources bound together under one layout.
#[derive(Debug, PartialEq, Eq)]
pub struct BindGroup {
    pub layout: BindGroupLayoutId,
    pub entries: Vec<BindGroupEntry>,
}

/// A render pipeline.
///
/// Its layout has one or two slots. Slot 0 takes the camera uniforms that
/// all drawables share; slot 1, where there is one, takes resources of the
/// drawable's own. The pipeline writes one color target without blending.
#[derive(Debug, PartialEq, Eq)]
pub struct RenderPipeline {
    pub shader: Shader,
    /// Layout of slot 0.
    pub uniforms_layout: BindGroupLayoutId,
    /// Layout of slot 1.
    pub private_layout: Option<BindGroupLayoutId>,
    /// Layout of the vertex buffer in slot 0, where the pipeline reads one.
    pub vertex_buffer: Option<VertexBufferLayout>,
    /// Format of the color target.
    pub target: TextureFormat,
    pub topology: PrimitiveTopology,
    /// Format of the depth attachment that the pipeline tests against.
    pub depth_stencil: Option<TextureFormat>,
}

/// What a [`Device`] holds: every resource in the order of its creation.
pub struct DeviceView {
    pub buffers: Seq<Buffer>,
    pub textures: Seq<Texture>,
    pub samplers: Seq<Sampler>,
    pub bind_group_layouts: Seq<BindGroupLayout>,
    pub bind_groups: Seq<BindGroup>,
    pub render_pipelines: Seq<RenderPipeline>,
}

/// No two entries bind the same number.
pub open spec fn distinct_bindings(entries: Seq<BindGroupLayoutEntry>) -> bool {
    forall|i: int, j: int|
        0 <= i < j < entries.len() ==> (#[trigger] entries[i]).binding != (
        #[trigger] entries[j]).binding
}

/// The texels of a texture of this size and format fill `len` bytes, and
/// the texture is a single non-empty layer.
pub open spec fn texels_fit(size: Extent3d, format: TextureFormat, len: nat) -> bool {
    &&& size.width > 0
    &&& size.height > 0
    &&& size.depth_or_array_layers == 1
    &&& len == size.width * size.height * format.texel_size()
}

/// `later` begins with all of `earlier`.
pub open spec fn keeps<T>(later: Seq<T>, earlier: Seq<T>) -> bool {
    &&& earlier.len() <= later.len()
    &&& forall|i: int|
        #![trigger later[i]]
        #![trigger earlier[i]]
        0 <= i < earlier.len() ==> later[i] == earlier[i]
}

impl DeviceView {
    /// The handle names a buffer of this register.
    pub open spec fn has_buffer(self, id: BufferId) -> bool {
        id.0 < self.buffers.len()
    }

    /// The handle names a texture of this register.
    pub open spec fn has_texture(self, id: TextureId) -> bool {
        id.0 < self.textures.len()
    }

    /// The handle names a sampler of this register.
    pub open spec fn has_sampler(self, id: SamplerId) -> bool {
        id.0 < self.samplers.len()
    }

    /// The handle names a bind group layout of this register.
    pub open spec fn has_bind_group_layout(self, id: BindGroupLayoutId) -> bool {
        id.0 < self.bind_group_layouts.len()
    }

    /// The handle names a bind group of this register.
    pub open spec fn has_bind_group(self, id: BindGroupId) -> bool {
        id.0 < self.bind_groups.len()
    }

    /// The handle names a render pipeline of this register.
    pub open spec fn has_render_pipeline(self, id: RenderPipelineId) -> bool {
        id.0 < self.render_pipelines.len()
    }

    /// The buffer that the handle names.
    pub open spec fn buffer(self, id: BufferId) -> Buffer {
        self.buffers[id.0 as int]
    }

    /// The texture that the handle names.
    pub open spec fn texture(self, id: TextureId) -> Texture {
        self.textures[id.0 as int]
    }

    /// The sampler that the handle names.
    pub open spec fn sampler(self, id: SamplerId) -> Sampler {
        self.samplers[id.0 as int]
    }

    /// The bind group layout that the handle names.
    pub open spec fn bind_group_layout(self, id: BindGroupLayoutId) -> BindGroupLayout {
        self.bind_group_layouts[id.0 as int]
    }

    /// The bind group that the handle names.
    pub open spec fn bind_group(self, id: BindGroupId) -> BindGroup {
        self.bind_groups[id.0 as int]
    }

    /// The render pipeline that the handle names.
    pub open spec fn render_pipeline(self, id: RenderPipelineId) -> RenderPipeline {
        self.render_pipelines[id.0 as int]
    }

    /// The resource exists and is of the kind that the binding takes.
    pub open spec fn resource_fits(self, ty: BindingType, resource: BindingResource) -> bool {
        match (ty, resource) {
            (BindingType::UniformBuffer, BindingResource::Buffer(b)) => self.has_buffer(b)
                && self.buffer(b).usage.uniform,
            (BindingType::Texture, BindingResource::TextureView(t)) => self.has_texture(t),
            (BindingType::Sampler, BindingResource::Sampler(s)) => self.has_sampler(s),
            _ => false,
        }
    }

    /// The entries fill the bindings of the layout, one for one and in the
    /// layout's order, each with a resource that fits.
    pub open spec fn entries_fit(
        self,
        layout: Seq<BindGroupLayoutEntry>,
        entries: Seq<BindGroupEntry>,
    ) -> bool {
        &&& entries.len() == layout.len()
        &&& forall|k: int|
            0 <= k < entries.len() ==> (#[trigger] entries[k]).binding == layout[k].binding
                && self.resource_fits(layout[k].ty, entries[k].resource)
    }

    /// A bind group of that layout with those entries can be created.
    pub open spec fn admits_bind_group(
        self,
        layout: BindGroupLayoutId,
        entries: Seq<BindGroupEntry>,
    ) -> bool {
        &&& self.has_bind_group_layout(layout)
        &&& self.entries_fit(self.bind_group_layout(layout).entries@, entries)
    }

    /// A pipeline of that description can be created.
    pub open spec fn admits_render_pipeline(self, desc: RenderPipeline) -> bool {
        &&& self.has_bind_group_layout(desc.uniforms_layout)
        &&& desc.private_layout matches Some(l) ==> self.has_bind_group_layout(l)
        &&& desc.vertex_buffer matches Some(v) ==> v.well_formed()
    }

    /// Every resource could be created when it was: it refers to resources
    /// that came before it, of the right kinds.
    pub open spec fn well_formed(self) -> bool {
        &&& forall|i: int|
            0 <= i < self.textures.len() ==> texels_fit(
                (#[trigger] self.textures[i]).size,
                self.textures[i].format,
                self.textures[i].data@.len(),
            )
        &&& forall|i: int|
            0 <= i < self.bind_group_layouts.len() ==> distinct_bindings(
                (#[trigger] self.bind_group_layouts[i]).entries@,
            )
        &&& forall|i: int|
            0 <= i < self.bind_groups.len() ==> self.admits_bind_group(
                (#[trigger] self.bind_groups[i]).layout,
                self.bind_groups[i].entries@,
            )
        &&& forall|i: int|
            0 <= i < self.render_pipelines.len() ==> self.admits_render_pipeline(
                #[trigger] self.render_pipelines[i],
            )
    }

    /// `self` holds everything that `earlier` holds, under the same handles.
    pub open spec fn extends(self, earlier: DeviceView) -> bool {
        &&& keeps(self.buffers, earlier.buffers)
        &&& keeps(self.textures, earlier.textures)
        &&& keeps(self.samplers, earlier.samplers)
        &&& keeps(self.bind_group_layouts, earlier.bind_group_layouts)
        &&& keeps(self.bind_groups, earlier.bind_groups)
        &&& keeps(self.render_pipelines, earlier.render_pipelines)
    }

    /// A well-formed register stays well formed when one resource that it
    /// admits is added to it.
    pub proof fn lemma_extends_well_formed(self, earlier: DeviceView)
        requires
            earlier.well_formed(),
            self.extends(earlier),
            forall|i: int|
                earlier.textures.len() <= i < self.textures.len() ==> texels_fit(
                    (#[trigger] self.textures[i]).size,
                    self.textures[i].format,
                    self.textures[i].data@.len(),
                ),
            forall|i: int|
                earlier.bind_group_layouts.len() <= i < self.bind_group_layouts.len()
                    ==> distinct_bindings((#[trigger] self.bind_group_layouts[i]).entries@),
            forall|i: int|
                earlier.bind_groups.len() <= i < self.bind_groups.len()
                    ==> self.admits_bind_group(
                    (#[trigger] self.bind_groups[i]).layout,
                    self.bind_groups[i].entries@,
                ),
            forall|i: int|
                earlier.render_pipelines.len() <= i < self.render_pipelines.len()
                    ==> self.admits_render_pipeline(#[trigger] self.render_pipelines[i]),
        ensures
            self.well_formed(),
    {
    }
}

/// The register of the resources that were created on a device.
pub struct Device {
    buffers: Vec<Buffer>,
    textures: Vec<Texture>,
    samplers: Vec<Sampler>,
    bind_group_layouts: Vec<BindGroupLayout>,
    bind_groups: Vec<BindGroup>,
    render_pipelines: Vec<RenderPipeline>,
}

impl View for Device {
    type V = DeviceView;

    closed spec fn view(&self) -> DeviceView {
        DeviceView {
            buffers: self.buffers@,
            textures: self.textures@,
            samplers: self.samplers@,
            bind_group_layouts: self.bind_group_layouts@,
            bind_groups: self.bind_groups@,
            render_pipelines: self.render_pipelines@,
        }
    }
}

impl Device {
    /// A device on which nothing has been created.
    pub fn new() -> (device: Device)
        ensures
            device@.buffers.len() == 0,
            device@.textures.len() == 0,
            device@.samplers.len() == 0,
            device@.bind_group_layouts.len() == 0,
            device@.bind_groups.len() == 0,
            device@.render_pipelines.len() == 0,
            device@.well_formed(),
    {
        Device {
            buffers: Vec::new(),
            textures: Vec::new(),
            samplers: Vec::new(),
            bind_group_layouts: Vec::new(),
            bind_groups: Vec::new(),
            render_pipelines: Vec::new(),
        }
    }

    /// The buffers, in the order of their creation.
    pub fn buffers(&self) -> (all: &Vec<Buffer>)
        ensures
            all@ == self@.buffers,
    {
        &self.buffers
    }

    /// The textures, in the order of their creation.
    pub fn textures(&self) -> (all: &Vec<Texture>)
        ensures
            all@ == self@.textures,
    {
        &self.textures
    }

    /// The samplers, in the order of their creation.
    pub fn samplers(&self) -> (all: &Vec<Sampler>)
        ensures
            all@ == self@.samplers,
    {
        &self.samplers
    }

    /// The bind group layouts, in the order of their creation.
    pub fn bind_group_layouts(&self) -> (all: &Vec<BindGroupLayout>)
        ensures
            all@ == self@.bind_group_layouts,
    {
        &self.bind_group_layouts
    }

    /// The bind groups, in the order of their creation.
    pub fn bind_groups(&self) -> (all: &Vec<BindGroup>)
        ensures
            all@ == self@.bind_groups,
    {
        &self.bind_groups
    }

    /// The render pipelines, in the order of their creation.
    pub fn render_pipelines(&self) -> (all: &Vec<RenderPipeline>)
        ensures
            all@ == self@.render_pipelines,
    {
        &self.render_pipelines
    }

    /// Creates a buffer that holds `contents`.
    pub fn create_buffer_init(&mut self, contents: Vec<u8>, usage: BufferUsage) -> (id: BufferId)
        requires
            old(self)@.well_formed(),
        ensures
            final(self)@.well_formed(),
            final(self)@.extends(old(self)@),
            id.0 == old(self)@.buffers.len(),
            final(self)@.buffers.len() == old(self)@.buffers.len() + 1,
            final(self)@.buffer(id).contents@ == contents@,
            final(self)@.buffer(id).usage == usage,
            final(self)@.textures == old(self)@.textures,
            final(self)@.samplers == old(self)@.samplers,
            final(self)@.bind_group_layouts == old(self)@.bind_group_layouts,
            final(self)@.bind_groups == old(self)@.bind_groups,
            final(self)@.render_pipelines == old(self)@.render_pipelines,
    {
        let id = BufferId(self.buffers.len());
        self.buffers.push(Buffer { contents, usage });
        proof {
            self@.lemma_extends_well_formed(old(self)@);
        }
        id
    }

    /// Creates a two-dimensional texture of one mip level and uploads
    /// `data` to it: the texels row by row, four bytes each, without
    /// padding.
    pub fn create_texture_with_data(
        &mut self,
        size: Extent3d,
        format: TextureFormat,
        data: Vec<u8>,
    ) -> (id: TextureId)
        requires
            old(self)@.well_formed(),
            texels_fit(size, format, data@.len()),
        ensures
            final(self)@.well_formed(),
            final(self)@.extends(old(self)@),
            id.0 == old(self)@.textures.len(),
            final(self)@.textures.len() == old(self)@.textures.len() + 1,
            final(self)@.texture(id).size == size,
            final(self)@.texture(id).mip_level_count == 1,
            final(self)@.texture(id).format == format,
            final(self)@.texture(id).data@ == data@,
            final(self)@.buffers == old(self)@.buffers,
            final(self)@.samplers == old(self)@.samplers,
            final(self)@.bind_group_layouts == old(self)@.bind_group_layouts,
            final(self)@.bind_groups == old(self)@.bind_groups,
            final(self)@.render_pipelines == old(self)@.render_pipelines,
    {
        let id = TextureId(self.textures.len());
        self.textures.push(Texture { size, mip_level_count: 1, format, data });
        proof {
            self@.lemma_extends_well_formed(old(self)@);
        }
        id
    }

    /// Creates a sampler.
    pub fn create_sampler(&mut self, sampler: Sampler) -> (id: SamplerId)
        requires
            old(self)@.well_formed(),
        ensures
            final(self)@.well_formed(),
            final(self)@.extends(old(self)@),
            id.0 == old(self)@.samplers.len(),
            final(self)@.samplers == old(self)@.samplers.push(sampler),
            final(self)@.buffers == old(self)@.buffers,
            final(self)@.textures == old(self)@.textures,
            final(self)@.bind_group_layouts == old(self)@.bind_group_layouts,
            final(self)@.bind_groups == old(self)@.bind_groups,
            final(self)@.render_pipelines == old(self)@.render_pipelines,
    {
        let id = SamplerId(self.samplers.len());
        self.samplers.push(sampler);
        proof {
            self@.lemma_extends_well_formed(old(self)@);
        }
        id
    }

    /// Creates a bind group layout with the given bindings.
    pub fn create_bind_group_layout(&mut self, entries: Vec<BindGroupLayoutEntry>) -> (id:
        BindGroupLayoutId)
        requires
            old(self)@.well_formed(),
            distinct_bindings(entries@),
        ensures
            final(self)@.well_formed(),
            final(self)@.extends(old(self)@),
            id.0 == old(self)@.bind_group_layouts.len(),
            final(self)@.bind_group_layouts.len() == old(self)@.bind_group_layouts.len() + 1,
            final(self)@.bind_group_layout(id).entries@ == entries@,
            final(self)@.buffers == old(self)@.buffers,
            final(self)@.textures == old(self)@.textures,
            final(self)@.samplers == old(self)@.samplers,
            final(self)@.bind_groups == old(self)@.bind_groups,
            final(self)@.render_pipelines == old(self)@.render_pipelines,
    {
        let id = BindGroupLayoutId(self.bind_group_layouts.len());
        self.bind_group_layouts.push(BindGroupLayout { entries });
        proof {
            self@.lemma_extends_well_formed(old(self)@);
        }
        id
    }

    /// Creates a bind group of the given layout. The entries fill the
    /// layout's bindings in the layout's order.
    pub fn create_bind_group(
        &mut self,
        layout: BindGroupLayoutId,
        entries: Vec<BindGroupEntry>,
    ) -> (id: BindGroupId)
        requires
            old(self)@.well_formed(),
            old(self)@.admits_bind_group(layout, entries@),
        ensures
            final(self)@.well_formed(),
            final(self)@.extends(old(self)@),
            id.0 == old(self)@.bind_groups.len(),
            final(self)@.bind_groups.len() == old(self)@.bind_groups.len() + 1,
            final(self)@.bind_group(id).layout == layout,
            final(self)@.bind_group(id).entries@ == entries@,
            final(self)@.buffers == old(self)@.buffers,
            final(self)@.textures == old(self)@.textures,
            final(self)@.samplers == old(self)@.samplers,
            final(self)@.bind_group_layouts == old(self)@.bind_group_layouts,
            final(self)@.render_pipelines == old(self)@.render_pipelines,
    {
        let id = BindGroupId(self.bind_groups.len());
        self.bind_groups.push(BindGroup { layout, entries });
        proof {
            self@.lemma_extends_well_formed(old(self)@);
        }
        id
    }

    /// Creates a render pipeline.
    pub fn create_render_pipeline(&mut self, desc: RenderPipeline) -> (id: RenderPipelineId)
        requires
            old(self)@.well_formed(),
            old(self)@.admits_render_pipeline(desc),
        ensures
            final(self)@.well_formed(),
            final(self)@.extends(old(self)@),
            id.0 == old(self)@.render_pipelines.len(),
            final(self)@.render_pipelines == old(self)@.render_pipelines.push(desc),
            final(self)@.render_pipeline(id) == desc,
            final(self)@.buffers == old(self)@.buffers,
            final(self)@.textures == old(self)@.textures,
            final(self)@.samplers == old(self)@.samplers,
            final(self)@.bind_group_layouts == old(self)@.bind_group_layouts,
            final(self)@.bind_groups == old(self)@.bind_groups,
    {
        let id = RenderPipelineId(self.render_pipelines.len());
        self.render_pipelines.push(desc);
        proof {
            self@.lemma_extends_well_formed(old(self)@);
        }
        id
    }
}

} // verus!
