//! The placeholder triangle.
//!
//! The triangle has no vertex data: its shader makes the three corners from
//! the vertex index. It binds nothing but the camera uniforms.

use crate::command::{CommandBuffer, Draw, DrawCall, RenderPass, Span};
use crate::device::{
    BindGroupId, BindGroupLayoutId, Device, DeviceView, RenderPipeline, RenderPipelineId,
};
use crate::target::ScreenTargets;
use crate::types::{LoadOp, Operations, PrimitiveTopology, Shader, TextureFormat};
use vstd::prelude::*;

verus! {

/// A drawable that draws one triangle.
#[derive(Clone, Copy, Debug, PartialEq, Eq)]
pub struct Triangle {
    render_pipeline: RenderPipelineId,
}

/// The pipeline of the triangle: the main shader, the camera uniforms in
/// slot 0 and no other input, no depth test.
pub open spec fn triangle_pipeline(
    color_format: TextureFormat,
    uniforms_bgl: BindGroupLayoutId,
) -> RenderPipeline {
    RenderPipeline {
        shader: Shader::Main,
        uniforms_layout: uniforms_bgl,
        private_layout: None,
        vertex_buffer: None,
        target: color_format,
        topology: PrimitiveTopology::TriangleList,
        depth_stencil: None,
    }
}

impl Triangle {
    /// The triangle's pipeline.
    pub closed spec fn spec_pipeline(&self) -> RenderPipelineId {
        self.render_pipeline
    }

    /// The triangle's pipeline is on the device, and it is the pipeline
    /// that [`Triangle::new`] creates.
    pub open spec fn valid_on(&self, device: DeviceView) -> bool {
        &&& device.has_render_pipeline(self.spec_pipeline())
        &&& device.render_pipeline(self.spec_pipeline()) == triangle_pipeline(
            device.render_pipeline(self.spec_pipeline()).target,
            device.render_pipeline(self.spec_pipeline()).uniforms_layout,
        )
    }

    /// The layout that the pipeline has in slot 0.
    pub open spec fn uniforms_layout(&self, device: DeviceView) -> BindGroupLayoutId {
        device.render_pipeline(self.spec_pipeline()).uniforms_layout
    }

    /// The format of the color target that the pipeline writes.
    pub open spec fn target_format(&self, device: DeviceView) -> TextureFormat {
        device.render_pipeline(self.spec_pipeline()).target
    }

    /// The command buffer that [`Triangle::draw`] records.
    pub open spec fn recorded(
        &self,
        targets: ScreenTargets,
        uniforms_bg: BindGroupId,
    ) -> CommandBuffer {
        CommandBuffer {
            pass: RenderPass {
                target: targets.color,
                ops: Operations { load: LoadOp::Load, store: true },
                draw: Some(
                    DrawCall {
                        pipeline: self.spec_pipeline(),
                        uniforms: uniforms_bg,
                        private: None,
                        vertex_buffer: None,
                        draw: Draw::Direct {
                            vertices: Span { start: 0, end: 3 },
                            instances: Span { start: 0, end: 1 },
                        },
                    },
                ),
            },
        }
    }

    /// Creates the triangle's pipeline for a color target of the given
    /// format, with the layout of the camera uniforms in slot 0.
    pub fn new(
        device: &mut Device,
        color_format: TextureFormat,
        uniforms_bgl: BindGroupLayoutId,
    ) -> (triangle: Triangle)
        requires
            old(device)@.well_formed(),
            old(device)@.has_bind_group_layout(uniforms_bgl),
        ensures
            final(device)@.well_formed(),
            final(device)@.extends(old(device)@),
            triangle.valid_on(final(device)@),
            triangle.spec_pipeline().0 == old(device)@.render_pipelines.len(),
            final(device)@.render_pipelines == old(device)@.render_pipelines.push(
                triangle_pipeline(color_format, uniforms_bgl),
            ),
            final(device)@.buffers == old(device)@.buffers,
            final(device)@.textures == old(device)@.textures,
            final(device)@.samplers == old(device)@.samplers,
            final(device)@.bind_group_layouts == old(device)@.bind_group_layouts,
            final(device)@.bind_groups == old(device)@.bind_groups,
    {
        let render_pipeline = device.create_render_pipeline(
            RenderPipeline {
                shader: Shader::Main,
                uniforms_layout: uniforms_bgl,
                private_layout: None,
                vertex_buffer: None,
                target: color_format,
                topology: PrimitiveTopology::TriangleList,
                depth_stencil: None,
            },
        );
        Triangle { render_pipeline }
    }

    /// The triangle's pipeline.
    pub fn render_pipeline(&self) -> (id: RenderPipelineId)
        ensures
            id == self.spec_pipeline(),
    {
        self.render_pipeline
    }

    /// Records the triangle's pass on the color target of the frame. The
    /// pass loads the target, so that what earlier passes drew stays; it
    /// binds the camera uniforms in slot 0 and draws three vertices.
    pub fn draw(&self, targets: &ScreenTargets, uniforms_bg: BindGroupId) -> (commands:
        CommandBuffer)
        ensures
            commands == self.recorded(*targets, uniforms_bg),
    {
        CommandBuffer {
            pass: RenderPass {
                target: targets.color,
                ops: Operations { load: LoadOp::Load, store: true },
                draw: Some(
                    DrawCall {
                        pipeline: self.render_pipeline,
                        uniforms: uniforms_bg,
                        private: None,
                        vertex_buffer: None,
                        draw: Draw::Direct {
                            vertices: Span { start: 0, end: 3 },
                            instances: Span { start: 0, end: 1 },
                        },
                    },
                ),
            },
        }
    }

    /// What the triangle records is accepted by the device it stands on,
    /// whenever the bind group in slot 0 has the layout of the pipeline's
    /// slot 0 and the target has the format that the pipeline writes.
    pub proof fn lemma_recorded_valid(
        &self,
        device: DeviceView,
        targets: ScreenTargets,
        uniforms_bg: BindGroupId,
    )
        requires
            self.valid_on(device),
            device.has_bind_group(uniforms_bg),
            device.bind_group(uniforms_bg).layout == self.uniforms_layout(device),
            targets.color.format == self.target_format(device),
        ensures
            self.recorded(targets, uniforms_bg).pass.valid_on(device),
            self.recorded(targets, uniforms_bg).pass.preserves_target(),
            self.recorded(targets, uniforms_bg).pass.target == targets.color,
    {
    }

    /// A triangle that stands on a device stands on every device that
    /// extends it.
    pub proof fn lemma_valid_on_extension(&self, later: DeviceView, earlier: DeviceView)
        requires
            self.valid_on(earlier),
            later.extends(earlier),
        ensures
            self.valid_on(later),
            self.uniforms_layout(later) == self.uniforms_layout(earlier),
            self.target_format(later) == self.target_format(earlier),
    {
    }
}

} // verus!
