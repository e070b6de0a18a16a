//! Recorded command buffers.
//!
//! A command buffer holds one render pass on the color target of the frame.
//! A pass first loads or clears the target and then makes at most one draw
//! call. No pass has a depth attachment: what is drawn later covers what was
//! drawn before.

use crate::device::{BindGroupId, BufferId, DeviceView, RenderPipelineId};
use crate::target::ColorTarget;
use crate::types::{IndexFormat, LoadOp, Operations};
use vstd::prelude::*;

verus! {

/// The half-open range `start..end`.
#[derive(Clone, Copy, Debug, PartialEq, Eq)]
pub struct Span {
    pub start: u32,
    pub end: u32,
}

/// What a draw call draws.
#[derive(Clone, Copy, Debug, PartialEq, Eq)]
pub enum Draw {
    /// The vertices of the range, in order.
    Direct { vertices: Span, instances: Span },
    /// The vertices that the indices of the range select.
    Indexed {
        buffer: BufferId,
        format: IndexFormat,
        indices: Span,
        base_vertex: i32,
        instances: Span,
    },
}

/// One draw call with everything that is bound when it is made.
#[derive(Clone, Copy, Debug, PartialEq, Eq)]
pub struct DrawCall {
    pub pipeline: RenderPipelineId,
    /// The bind group in slot 0: the camera uniforms.
    pub uniforms: BindGroupId,
    /// The bind group in slot 1: resources of the drawable's own.
    pub private: Option<BindGroupId>,
    /// The vertex buffer in slot 0, bound whole.
    pub vertex_buffer: Option<BufferId>,
    pub draw: Draw,
}

/// A render pass on one color target.
#[derive(Clone, Copy, Debug, PartialEq, Eq)]
pub struct RenderPass {
    pub target: ColorTarget,
    pub ops: Operations,
    pub draw: Option<DrawCall>,
}

/// A recorded command buffer, ready to be submitted.
#[derive(Clone, Copy, Debug, PartialEq, Eq)]
pub struct CommandBuffer {
    pub pass: RenderPass,
}

impl Span {
    /// The range does not end before it starts.
    pub open spec fn well_formed(self) -> bool {
        self.start <= self.end
    }
}

impl DrawCall {
    /// The draw call is one that the device accepts: the pipeline and every
    /// bound resource exist, each slot of the pipeline's layout holds a bind
    /// group of that slot's layout, a vertex buffer is bound exactly where
    /// the pipeline reads one, the buffers were created for their use, and
    /// the ranges lie inside the buffers. The pipeline has no depth test,
    /// since no pass has a depth attachment.
    pub open spec fn valid_on(self, device: DeviceView) -> bool {
        let pipeline = device.render_pipeline(self.pipeline);
        &&& device.has_render_pipeline(self.pipeline)
        &&& pipeline.depth_stencil is None
        &&& device.has_bind_group(self.uniforms)
        &&& device.bind_group(self.uniforms).layout == pipeline.uniforms_layout
        &&& match self.private {
            Some(group) => device.has_bind_group(group) && pipeline.private_layout == Some(
                device.bind_group(group).layout,
            ),
            None => pipeline.private_layout is None,
        }
        &&& match self.vertex_buffer {
            Some(buffer) => pipeline.vertex_buffer is Some && device.has_buffer(buffer)
                && device.buffer(buffer).usage.vertex,
            None => pipeline.vertex_buffer is None,
        }
        &&& match self.draw {
            Draw::Direct { vertices, instances } => {
                &&& vertices.well_formed()
                &&& instances.well_formed()
                &&& self.vertex_buffer matches Some(buffer) ==> vertices.end
                    * pipeline.vertex_buffer->0.array_stride <= device.buffer(
                    buffer,
                ).contents@.len()
            },
            Draw::Indexed { buffer, format, indices, base_vertex, instances } => {
                &&& indices.well_formed()
                &&& instances.well_formed()
                &&& device.has_buffer(buffer)
                &&& device.buffer(buffer).usage.index
                &&& indices.end * format.size() <= device.buffer(buffer).contents@.len()
            },
        }
    }

    /// A draw call that a device accepts is accepted by every device that
    /// extends it.
    pub proof fn lemma_valid_on_extension(self, later: DeviceView, earlier: DeviceView)
        requires
            self.valid_on(earlier),
            later.extends(earlier),
        ensures
            self.valid_on(later),
    {
    }
}

impl RenderPass {
    /// The pass keeps what the target holds and stores what it draws.
    pub open spec fn preserves_target(self) -> bool {
        self.ops.load == LoadOp::Load && self.ops.store
    }

    /// The draw call of the pass, if it has one, is accepted by the device,
    /// and its pipeline writes the format of the target.
    pub open spec fn valid_on(self, device: DeviceView) -> bool {
        self.draw matches Some(call) ==> call.valid_on(device) && device.render_pipeline(
            call.pipeline,
        ).target == self.target.format
    }

    /// A pass that a device accepts is accepted by every device that
    /// extends it: what was recorded stays good while resources are added.
    pub proof fn lemma_valid_on_extension(self, later: DeviceView, earlier: DeviceView)
        requires
            self.valid_on(earlier),
            later.extends(earlier),
        ensures
            self.valid_on(later),
    {
        if let Some(call) = self.draw {
            call.lemma_valid_on_extension(later, earlier);
        }
    }
}

} // verus!
