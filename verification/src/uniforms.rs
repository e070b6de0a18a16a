//! The camera uniforms that every drawable reads.
//!
//! The view-projection matrix is computed outside this crate, in floating
//! point, and comes in as the bit patterns of its sixteen 32-bit floats,
//! column by column. The store keeps the matrix, the buffer that holds it on
//! the device, and the bind group through which every pipeline reads it in
//! slot 0.

use crate::bytes::{
    bytes_u32s, is_words_image, lemma_u32s_round_trip, words_to_bytes, ByteOrder,
};
use crate::device::{
    BindGroupEntry, BindGroupId, BindGroupLayoutEntry, BindGroupLayoutId, BindingResource,
    BindingType, BufferId, Device, DeviceView,
};
use crate::types::{BufferUsage, ShaderStage};
use vstd::prelude::*;

verus! {

/// Bit pattern of the 32-bit float `1.0`.
pub const F32_ONE: u32 = 0x3F80_0000;

/// Bytes that the uniforms take in their buffer.
pub const UNIFORMS_SIZE: usize = 64;

/// The sixteen words of a matrix, column by column.
pub open spec fn matrix_words(m: [[u32; 4]; 4]) -> Seq<u32> {
    Seq::new(16, |i: int| m[i / 4][i % 4])
}

/// The words of the identity matrix.
pub open spec fn identity_words() -> Seq<u32> {
    Seq::new(
        16,
        |i: int|
            if i / 4 == i % 4 {
                F32_ONE
            } else {
                0u32
            },
    )
}

/// The uniform block of the shaders: the view-projection matrix.
#[derive(Clone, Copy, Debug, PartialEq, Eq)]
pub struct Uniforms {
    view_proj: [[u32; 4]; 4],
}

impl View for Uniforms {
    type V = Seq<u32>;

    /// The sixteen words of the matrix, column by column.
    closed spec fn view(&self) -> Seq<u32> {
        matrix_words(self.view_proj)
    }
}

impl Uniforms {
    /// Uniforms that hold the identity matrix.
    pub fn new() -> (uniforms: Uniforms)
        ensures
            uniforms@ == identity_words(),
    {
        Uniforms {
            view_proj: [
                [F32_ONE, 0, 0, 0],
                [0, F32_ONE, 0, 0],
                [0, 0, F32_ONE, 0],
                [0, 0, 0, F32_ONE],
            ],
        }
    }

    /// Replaces the matrix.
    pub fn update_view_proj(&mut self, view_proj: [[u32; 4]; 4])
        ensures
            final(self)@ == matrix_words(view_proj),
    {
        self.view_proj = view_proj;
    }

    /// The sixteen words of the matrix, column by column.
    pub fn words(&self) -> (words: Vec<u32>)
        ensures
            words@ == self@,
    {
        let mut words: Vec<u32> = Vec::new();
        let mut i: usize = 0;
        while i < 16
            invariant
                i <= 16,
                words@.len() == i,
                forall|k: int| 0 <= k < i ==> words@[k] == self.view_proj[k / 4][k % 4],
            decreases 16 - i,
        {
            words.push(self.view_proj[i / 4][i % 4]);
            i += 1;
        }
        words
    }

    /// The uniforms as the bytes that the buffer holds: 64 bytes, the words
    /// in order, each in the byte order of the machine.
    pub fn bytes(&self) -> (bytes: Vec<u8>)
        ensures
            is_words_image(bytes@, self@),
            bytes@.len() == UNIFORMS_SIZE,
    {
        let words = self.words();
        words_to_bytes(words.as_slice())
    }
}

/// A write of `data` into a buffer at `offset`, to be put on the queue. The
/// queue carries out its writes before the command buffers that are
/// submitted after them.
#[derive(Debug, PartialEq, Eq)]
pub struct BufferWrite {
    pub buffer: BufferId,
    pub offset: u64,
    pub data: Vec<u8>,
}

impl BufferWrite {
    /// The write is one that the device accepts: the buffer exists, may be
    /// copied to, and holds the written range.
    pub open spec fn valid_on(self, device: DeviceView) -> bool {
        &&& device.has_buffer(self.buffer)
        &&& device.buffer(self.buffer).usage.copy_dst
        &&& self.offset + self.data@.len() <= device.buffer(self.buffer).contents@.len()
    }
}

/// `write` is the write that brings `buffer` up to date with the matrix: it
/// starts at the front of the buffer and carries the image of the matrix.
pub open spec fn is_frame_write(
    write: BufferWrite,
    buffer: BufferId,
    view_proj: [[u32; 4]; 4],
) -> bool {
    &&& write.buffer == buffer
    &&& write.offset == 0
    &&& write.data@.len() == UNIFORMS_SIZE
    &&& is_words_image(write.data@, matrix_words(view_proj))
}

/// What a frame writes to the uniform buffer reads back as the matrix that
/// the frame was composed with: in the byte order that the bytes were
/// written in, they are the sixteen words of the matrix, bit for bit.
pub proof fn lemma_write_reads_back(write: BufferWrite, buffer: BufferId, view_proj: [[u32; 4]; 4])
    requires
        is_frame_write(write, buffer, view_proj),
    ensures
        bytes_u32s(ByteOrder::Little, write.data@) == matrix_words(view_proj) || bytes_u32s(
            ByteOrder::Big,
            write.data@,
        ) == matrix_words(view_proj),
{
    lemma_u32s_round_trip(ByteOrder::Little, matrix_words(view_proj));
    lemma_u32s_round_trip(ByteOrder::Big, matrix_words(view_proj));
}

/// The uniforms with their buffer and their bindings on the device.
#[derive(Clone, Copy, Debug, PartialEq, Eq)]
pub struct UniformStore {
    uniforms: Uniforms,
    buffer: BufferId,
    layout: BindGroupLayoutId,
    bind_group: BindGroupId,
}

/// The one binding of the uniforms layout: a uniform buffer at binding 0
/// that the vertex stage reads.
pub open spec fn uniforms_layout_entry() -> BindGroupLayoutEntry {
    BindGroupLayoutEntry {
        binding: 0,
        visibility: ShaderStage::Vertex,
        ty: BindingType::UniformBuffer,
    }
}

/// What the uniform buffer is used for: it is read as uniforms and written
/// through the queue.
pub open spec fn uniforms_usage() -> BufferUsage {
    BufferUsage { vertex: false, index: false, uniform: true, copy_dst: true }
}

impl UniformStore {
    /// The matrix that the store holds, as its sixteen words.
    pub closed spec fn matrix(&self) -> Seq<u32> {
        self.uniforms@
    }

    /// The uniform buffer.
    pub closed spec fn spec_buffer(&self) -> BufferId {
        self.buffer
    }

    /// The layout of slot 0.
    pub closed spec fn spec_layout(&self) -> BindGroupLayoutId {
        self.layout
    }

    /// The bind group of slot 0.
    pub closed spec fn spec_bind_group(&self) -> BindGroupId {
        self.bind_group
    }

    /// The store's resources are on the device as the store made them: a
    /// buffer of uniform size, the layout with its one binding, and the bind
    /// group that binds the whole buffer under that layout.
    pub open spec fn valid_on(&self, device: DeviceView) -> bool {
        &&& device.has_buffer(self.spec_buffer())
        &&& device.buffer(self.spec_buffer()).usage == uniforms_usage()
        &&& device.buffer(self.spec_buffer()).contents@.len() == UNIFORMS_SIZE
        &&& device.has_bind_group_layout(self.spec_layout())
        &&& device.bind_group_layout(self.spec_layout()).entries@ == seq![uniforms_layout_entry()]
        &&& device.has_bind_group(self.spec_bind_group())
        &&& device.bind_group(self.spec_bind_group()).layout == self.spec_layout()
        &&& device.bind_group(self.spec_bind_group()).entries@ == seq![
            BindGroupEntry { binding: 0, resource: BindingResource::Buffer(self.spec_buffer()) },
        ]
    }

    /// A store that is on a device is on every device that extends it.
    pub proof fn lemma_valid_on_extension(&self, later: DeviceView, earlier: DeviceView)
        requires
            self.valid_on(earlier),
            later.extends(earlier),
        ensures
            self.valid_on(later),
    {
    }

    /// Creates the uniform buffer with the given matrix in it, the layout
    /// of slot 0 and the bind group for it.
    pub fn new(device: &mut Device, view_proj: [[u32; 4]; 4]) -> (store: UniformStore)
        requires
            old(device)@.well_formed(),
        ensures
            final(device)@.well_formed(),
            final(device)@.extends(old(device)@),
            store.valid_on(final(device)@),
            store.matrix() == matrix_words(view_proj),
            is_words_image(final(device)@.buffer(store.spec_buffer()).contents@, store.matrix()),
            store.spec_buffer().0 == old(device)@.buffers.len(),
            store.spec_layout().0 == old(device)@.bind_group_layouts.len(),
            store.spec_bind_group().0 == old(device)@.bind_groups.len(),
            final(device)@.buffers.len() == old(device)@.buffers.len() + 1,
            final(device)@.bind_group_layouts.len() == old(device)@.bind_group_layouts.len() + 1,
            final(device)@.bind_groups.len() == old(device)@.bind_groups.len() + 1,
            final(device)@.textures == old(device)@.textures,
            final(device)@.samplers == old(device)@.samplers,
            final(device)@.render_pipelines == old(device)@.render_pipelines,
    {
        let mut uniforms = Uniforms::new();
        uniforms.update_view_proj(view_proj);
        let buffer = device.create_buffer_init(
            uniforms.bytes(),
            BufferUsage { vertex: false, index: false, uniform: true, copy_dst: true },
        );

        let mut slots: Vec<BindGroupLayoutEntry> = Vec::new();
        slots.push(
            BindGroupLayoutEntry {
                binding: 0,
                visibility: ShaderStage::Vertex,
                ty: BindingType::UniformBuffer,
            },
        );
        let layout = device.create_bind_group_layout(slots);

        let mut entries: Vec<BindGroupEntry> = Vec::new();
        entries.push(BindGroupEntry { binding: 0, resource: BindingResource::Buffer(buffer) });
        let bind_group = device.create_bind_group(layout, entries);
        proof {
        }
        UniformStore { uniforms, buffer, layout, bind_group }
    }

    /// Takes the matrix of the coming frame and returns the write that
    /// brings the buffer up to date. The write goes on the queue before the
    /// frame's command buffers are submitted.
    pub fn update(&mut self, view_proj: [[u32; 4]; 4]) -> (write: BufferWrite)
        ensures
            final(self).matrix() == matrix_words(view_proj),
            final(self).spec_buffer() == old(self).spec_buffer(),
            final(self).spec_layout() == old(self).spec_layout(),
            final(self).spec_bind_group() == old(self).spec_bind_group(),
            is_frame_write(write, old(self).spec_buffer(), view_proj),
    {
        self.uniforms.update_view_proj(view_proj);
        BufferWrite { buffer: self.buffer, offset: 0, data: self.uniforms.bytes() }
    }

    /// The words of the matrix that the store holds.
    pub fn words(&self) -> (words: Vec<u32>)
        ensures
            words@ == self.matrix(),
    {
        self.uniforms.words()
    }

    /// The uniform buffer.
    pub fn buffer(&self) -> (id: BufferId)
        ensures
            id == self.spec_buffer(),
    {
        self.buffer
    }

    /// The layout of slot 0, which every pipeline is created with.
    pub fn layout(&self) -> (id: BindGroupLayoutId)
        ensures
            id == self.spec_layout(),
    {
        self.layout
    }

    /// The bind group that every draw call binds in slot 0.
    pub fn bind_group(&self) -> (id: BindGroupId)
        ensures
            id == self.spec_bind_group(),
    {
        self.bind_group
    }
}

} // verus!
