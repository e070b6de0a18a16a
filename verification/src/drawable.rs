//! The closed set of drawables.
//!
//! Every drawable is created with the layout of the camera uniforms in slot
//! 0 of its pipeline, and records one pass per frame that loads the target
//! instead of clearing it.

use crate::command::CommandBuffer;
use crate::device::{BindGroupId, BindGroupLayoutId, DeviceView};
use crate::target::ScreenTargets;
use crate::terrain::Terrain;
use crate::triangle::Triangle;
use crate::types::TextureFormat;
use vstd::prelude::*;

verus! {

/// One drawable of the scene.
#[derive(Clone, Copy, Debug, PartialEq, Eq)]
pub enum Drawable {
    Triangle(Triangle),
    Terrain(Terrain),
}

impl Drawable {
    /// The drawable's resources are on the device.
    pub open spec fn valid_on(&self, device: DeviceView) -> bool {
        match *self {
            Drawable::Triangle(t) => t.valid_on(device),
            Drawable::Terrain(t) => t.valid_on(device),
        }
    }

    /// The layout that the drawable's pipeline has in slot 0.
    pub open spec fn uniforms_layout(&self, device: DeviceView) -> BindGroupLayoutId {
        match *self {
            Drawable::Triangle(t) => t.uniforms_layout(device),
            Drawable::Terrain(t) => t.uniforms_layout(device),
        }
    }

    /// The format of the color target that the drawable's pipeline writes.
    pub open spec fn target_format(&self, device: DeviceView) -> TextureFormat {
        match *self {
            Drawable::Triangle(t) => t.target_format(device),
            Drawable::Terrain(t) => t.target_format(device),
        }
    }

    /// The command buffer that [`Drawable::draw`] records.
    pub open spec fn recorded(
        &self,
        targets: ScreenTargets,
        uniforms_bg: BindGroupId,
    ) -> CommandBuffer {
        match *self {
            Drawable::Triangle(t) => t.recorded(targets, uniforms_bg),
            Drawable::Terrain(t) => t.recorded(targets, uniforms_bg),
        }
    }

    /// Records the drawable's pass on the color target of the frame.
    pub fn draw(&self, targets: &ScreenTargets, uniforms_bg: BindGroupId) -> (commands:
        CommandBuffer)
        ensures
            commands == self.recorded(*targets, uniforms_bg),
    {
        match self {
            Drawable::Triangle(t) => t.draw(targets, uniforms_bg),
            Drawable::Terrain(t) => t.draw(targets, uniforms_bg),
        }
    }

    /// Whatever the drawable, its pass draws on the color target of the
    /// frame, loads it and stores to it, and makes a draw call that the
    /// device accepts.
    pub proof fn lemma_recorded_valid(
        &self,
        device: DeviceView,
        targets: ScreenTargets,
        uniforms_bg: BindGroupId,
    )
        requires
            self.valid_on(device),
            device.has_bind_group(uniforms_bg),
            device.bind_group(uniforms_bg).layout == self.uniforms_layout(device),
            targets.color.format == self.target_format(device),
        ensures
            self.recorded(targets, uniforms_bg).pass.valid_on(device),
            self.recorded(targets, uniforms_bg).pass.preserves_target(),
            self.recorded(targets, uniforms_bg).pass.target == targets.color,
            self.recorded(targets, uniforms_bg).pass.draw is Some,
    {
        match *self {
            Drawable::Triangle(t) => t.lemma_recorded_valid(device, targets, uniforms_bg),
            Drawable::Terrain(t) => t.lemma_recorded_valid(device, targets, uniforms_bg),
        }
    }

    /// Without any device: the pass draws on the color target of the frame,
    /// loads it and stores to it.
    pub proof fn lemma_recorded_loads(&self, targets: ScreenTargets, uniforms_bg: BindGroupId)
        ensures
            self.recorded(targets, uniforms_bg).pass.preserves_target(),
            self.recorded(targets, uniforms_bg).pass.target == targets.color,
            self.recorded(targets, uniforms_bg).pass.draw is Some,
    {
    }

    /// A drawable that stands on a device stands on every device that
    /// extends it.
    pub proof fn lemma_valid_on_extension(&self, later: DeviceView, earlier: DeviceView)
        requires
            self.valid_on(earlier),
            later.extends(earlier),
        ensures
            self.valid_on(later),
            self.uniforms_layout(later) == self.uniforms_layout(earlier),
            self.target_format(later) == self.target_format(earlier),
    {
        match *self {
            Drawable::Triangle(t) => t.lemma_valid_on_extension(later, earlier),
            Drawable::Terrain(t) => t.lemma_valid_on_extension(later, earlier),
        }
    }
}

} // verus!
