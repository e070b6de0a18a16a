//! The frame compositor.
//!
//! A frame is one write of the camera uniforms and a sequence of command
//! buffers: a pass that clears the target to the background, then one pass
//! for each drawable in the order of registration. Every drawable's pass
//! loads the target, so the order of submission is the only thing that
//! decides what is seen where drawables overlap: the later one.

use crate::command::{CommandBuffer, RenderPass};
use crate::device::{BindGroupId, Device, DeviceView};
use crate::drawable::Drawable;
use crate::target::ScreenTargets;
use crate::terrain::{Image, Terrain};
use crate::triangle::Triangle;
use crate::types::{background, background_color, Color, LoadOp, Operations, TextureFormat};
use crate::uniforms::{is_frame_write, matrix_words, BufferWrite, UniformStore};
use vstd::prelude::*;

verus! {

/// The command buffer that [`clear_screen`] records.
pub open spec fn cleared(targets: ScreenTargets, color: Color) -> CommandBuffer {
    CommandBuffer {
        pass: RenderPass {
            target: targets.color,
            ops: Operations { load: LoadOp::Clear(color), store: true },
            draw: None,
        },
    }
}

/// Records a pass that clears the color target of the frame to `color` and
/// draws nothing.
pub fn clear_screen(targets: &ScreenTargets, color: Color) -> (commands: CommandBuffer)
    ensures
        commands == cleared(*targets, color),
{
    CommandBuffer {
        pass: RenderPass {
            target: targets.color,
            ops: Operations { load: LoadOp::Clear(color), store: true },
            draw: None,
        },
    }
}

/// What is handed to the queue for one frame: first the write, then the
/// command buffers in their order.
#[derive(Debug, PartialEq, Eq)]
pub struct Frame {
    pub uniform_write: BufferWrite,
    pub command_buffers: Vec<CommandBuffer>,
}

/// The command buffers of a frame: the clear to the background, then the
/// pass of every drawable in order, each with `uniforms_bg` in slot 0.
pub open spec fn frame_commands(
    drawables: Seq<Drawable>,
    targets: ScreenTargets,
    uniforms_bg: BindGroupId,
) -> Seq<CommandBuffer> {
    seq![cleared(targets, background_color())] + Seq::new(
        drawables.len(),
        |i: int| drawables[i].recorded(targets, uniforms_bg),
    )
}

/// The compositor: the camera uniforms and the drawables that share them.
#[derive(Debug)]
pub struct Autonomy {
    uniforms: UniformStore,
    drawables: Vec<Drawable>,
}

impl Autonomy {
    /// The store of the camera uniforms.
    pub closed spec fn store(&self) -> UniformStore {
        self.uniforms
    }

    /// The drawables in the order of their registration.
    pub closed spec fn registered(&self) -> Seq<Drawable> {
        self.drawables@
    }

    /// The uniforms and every drawable are on the device, and every
    /// drawable's pipeline has the layout of the uniforms in slot 0.
    pub open spec fn valid_on(&self, device: DeviceView) -> bool {
        &&& self.store().valid_on(device)
        &&& forall|i: int|
            0 <= i < self.registered().len() ==> {
                &&& (#[trigger] self.registered()[i]).valid_on(device)
                &&& self.registered()[i].uniforms_layout(device) == self.store().spec_layout()
            }
    }

    /// Every drawable's pipeline writes color targets of the format.
    pub open spec fn draws_to(&self, device: DeviceView, format: TextureFormat) -> bool {
        forall|i: int|
            0 <= i < self.registered().len() ==> (#[trigger] self.registered()[i]).target_format(
                device,
            ) == format
    }

    /// The command buffers of a frame on the given targets.
    pub open spec fn commands(&self, targets: ScreenTargets) -> Seq<CommandBuffer> {
        frame_commands(self.registered(), targets, self.store().spec_bind_group())
    }

    /// Creates the scene on the device: the camera uniforms with the given
    /// view-projection matrix, then the triangle, then the terrain with the
    /// given image as its texture. Both pipelines are made for a color
    /// target of the given format.
    pub fn new(
        device: &mut Device,
        color_format: TextureFormat,
        view_proj: [[u32; 4]; 4],
        image: Image,
    ) -> (scene: Autonomy)
        requires
            old(device)@.well_formed(),
            image.well_formed(),
        ensures
            final(device)@.well_formed(),
            final(device)@.extends(old(device)@),
            scene.valid_on(final(device)@),
            scene.store().matrix() == matrix_words(view_proj),
            scene.registered().len() == 2,
            scene.registered()[0] is Triangle,
            scene.registered()[1] is Terrain,
            scene.draws_to(final(device)@, color_format),
            final(device)@.texture(
                scene.registered()[1]->Terrain_0.spec_texture(),
            ).data@ == image.spec_pixels(),
            final(device)@.texture(scene.registered()[1]->Terrain_0.spec_texture()).size
                == image.extent(),
            final(device)@.texture(scene.registered()[1]->Terrain_0.spec_texture()).format
                == image.spec_format(),
            final(device)@.texture(
                scene.registered()[1]->Terrain_0.spec_texture(),
            ).mip_level_count == 1,
            final(device)@.buffers.len() == old(device)@.buffers.len() + 3,
            final(device)@.textures.len() == old(device)@.textures.len() + 1,
            final(device)@.samplers.len() == old(device)@.samplers.len() + 1,
            final(device)@.bind_group_layouts.len() == old(device)@.bind_group_layouts.len() + 2,
            final(device)@.bind_groups.len() == old(device)@.bind_groups.len() + 2,
            final(device)@.render_pipelines.len() == old(device)@.render_pipelines.len() + 2,
    {
        let uniforms = UniformStore::new(device, view_proj);
        let triangle = Triangle::new(device, color_format, uniforms.layout());
        let terrain = Terrain::new(device, color_format, uniforms.layout(), image);
        let mut drawables: Vec<Drawable> = Vec::new();
        drawables.push(Drawable::Triangle(triangle));
        drawables.push(Drawable::Terrain(terrain));
        Autonomy { uniforms, drawables }
    }

    /// A compositor for the given drawables, registered in the order given.
    /// Its frames are accepted by a device on which the uniforms and the
    /// drawables stand, where each drawable was created with the layout of
    /// these uniforms in slot 0: see [`Autonomy::valid_on`].
    pub fn with_drawables(uniforms: UniformStore, drawables: Vec<Drawable>) -> (scene: Autonomy)
        ensures
            scene.store() == uniforms,
            scene.registered() == drawables@,
    {
        Autonomy { uniforms, drawables }
    }

    /// The store of the camera uniforms.
    pub fn uniforms(&self) -> (store: &UniformStore)
        ensures
            *store == self.store(),
    {
        &self.uniforms
    }

    /// The drawables in the order of their registration.
    pub fn drawables(&self) -> (all: &Vec<Drawable>)
        ensures
            all@ == self.registered(),
    {
        &self.drawables
    }

    /// Composes one frame. The view-projection matrix of the frame goes
    /// into the uniforms; the frame holds the write that brings the buffer
    /// up to date and, behind the clear to the background, one command
    /// buffer for each drawable in the order of registration.
    pub fn draw(&mut self, view_proj: [[u32; 4]; 4], targets: &ScreenTargets) -> (frame: Frame)
        ensures
            final(self).registered() == old(self).registered(),
            final(self).store().matrix() == matrix_words(view_proj),
            final(self).store().spec_buffer() == old(self).store().spec_buffer(),
            final(self).store().spec_layout() == old(self).store().spec_layout(),
            final(self).store().spec_bind_group() == old(self).store().spec_bind_group(),
            is_frame_write(frame.uniform_write, old(self).store().spec_buffer(), view_proj),
            frame.command_buffers@ == old(self).commands(*targets),
            frame.command_buffers@.len() == old(self).registered().len() + 1,
            frame.command_buffers@[0] == cleared(*targets, background_color()),
    {
        let uniform_write = self.uniforms.update(view_proj);
        let uniforms_bg = self.uniforms.bind_group();
        let mut command_buffers: Vec<CommandBuffer> = Vec::new();
        command_buffers.push(clear_screen(targets, background()));
        let mut i: usize = 0;
        while i < self.drawables.len()
            invariant
                i <= self.drawables.len(),
                command_buffers@.len() == i + 1,
                command_buffers@[0] == cleared(*targets, background_color()),
                forall|k: int|
                    0 <= k < i ==> command_buffers@[k + 1] == self.drawables@[k].recorded(
                        *targets,
                        uniforms_bg,
                    ),
            decreases self.drawables.len() - i,
        {
            command_buffers.push(self.drawables[i].draw(targets, uniforms_bg));
            i += 1;
        }
        Frame { uniform_write, command_buffers }
    }

    /// Everything in a frame is accepted by the device that the scene
    /// stands on, if the color target has the format that the scene was
    /// made for: the write of the uniforms lies inside their buffer, every
    /// draw call binds what its pipeline expects, and each of them has the
    /// bind group of the camera uniforms in slot 0.
    pub proof fn lemma_frame_valid(
        &self,
        device: DeviceView,
        targets: ScreenTargets,
        write: BufferWrite,
        view_proj: [[u32; 4]; 4],
    )
        requires
            self.valid_on(device),
            self.draws_to(device, targets.color.format),
            is_frame_write(write, self.store().spec_buffer(), view_proj),
        ensures
            write.valid_on(device),
            forall|i: int|
                0 <= i < self.commands(targets).len() ==> (#[trigger] self.commands(
                    targets,
                )[i]).pass.valid_on(device),
            forall|i: int|
                1 <= i < self.commands(targets).len() ==> (#[trigger] self.commands(
                    targets,
                )[i]).pass.draw is Some && self.commands(targets)[i].pass.draw->0.uniforms
                    == self.store().spec_bind_group(),
    {
        let group = self.store().spec_bind_group();
        assert forall|i: int|
            1 <= i < self.commands(targets).len() implies (#[trigger] self.commands(
            targets,
        )[i]).pass.valid_on(device) by {
            self.registered()[i - 1].lemma_recorded_valid(device, targets, group);
        }
    }

    /// Nothing is ever removed from a register. So a scene that stands on
    /// a device stands on every later state of it, and the passes of a
    /// frame that was recorded then are still accepted.
    pub proof fn lemma_valid_on_extension(
        &self,
        later: DeviceView,
        earlier: DeviceView,
        targets: ScreenTargets,
    )
        requires
            self.valid_on(earlier),
            self.draws_to(earlier, targets.color.format),
            later.extends(earlier),
        ensures
            self.valid_on(later),
            self.draws_to(later, targets.color.format),
            forall|i: int|
                0 <= i < self.commands(targets).len() ==> (#[trigger] self.commands(
                    targets,
                )[i]).pass.valid_on(later),
    {
        self.store().lemma_valid_on_extension(later, earlier);
        assert forall|i: int| 0 <= i < self.registered().len() implies {
            &&& (#[trigger] self.registered()[i]).valid_on(later)
            &&& self.registered()[i].uniforms_layout(later) == self.store().spec_layout()
            &&& self.registered()[i].target_format(later) == targets.color.format
        } by {
            self.registered()[i].lemma_valid_on_extension(later, earlier);
        }
        let group = self.store().spec_bind_group();
        assert forall|i: int|
            0 <= i < self.commands(targets).len() implies (#[trigger] self.commands(
            targets,
        )[i]).pass.valid_on(later) by {
            if i > 0 {
                self.registered()[i - 1].lemma_recorded_valid(earlier, targets, group);
            }
            self.commands(targets)[i].pass.lemma_valid_on_extension(later, earlier);
        }
    }
}

} // verus!
