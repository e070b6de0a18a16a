//! The decisions of the event loop.
//!
//! The loop itself belongs to the windowing system. For every event it asks
//! [`FrameLoop::on_event`] what to do and does it; when a frame is due it
//! tries to take the next image of the swap chain and asks
//! [`FrameLoop::frame_targets`] what to draw on. A frame whose image could
//! not be had is dropped: nothing is composed and nothing is submitted.

use crate::compositor::Autonomy;
use crate::command::RenderPass;
use crate::painter::{after_submit, Fragments, Surface};
use crate::target::{ColorTarget, DepthTarget, ScreenTargets};
use crate::types::{Extent3d, TextureFormat};
use vstd::prelude::*;

verus! {

/// What the windowing system reports.
#[derive(Clone, Copy, Debug, PartialEq, Eq)]
pub enum Event {
    /// The window has a new inner size.
    Resized { width: u32, height: u32 },
    /// The window gained (`true`) or lost (`false`) the focus.
    Focused(bool),
    /// The user asked to close the window.
    CloseRequested,
    /// All pending events were handled: a frame is due.
    MainEventsCleared,
    /// Anything else.
    Other,
}

/// What the loop has to do after an event.
#[derive(Clone, Copy, Debug, PartialEq, Eq)]
pub enum Action {
    /// Nothing.
    Wait,
    /// Make the swap chain and the depth target anew, in this extent.
    Reconfigure(Extent3d),
    /// Load the shaders again.
    ReloadShaders,
    /// Take the next image of the swap chain and draw a frame.
    Redraw,
    /// Leave the loop.
    Exit,
}

/// The state that the loop carries from event to event.
#[derive(Clone, Copy, Debug, PartialEq, Eq)]
pub struct FrameLoop {
    /// The inner width of the window, and of the targets that the provider
    /// hands out now.
    pub width: u32,
    /// The inner height of the window.
    pub height: u32,
    /// Whether the window lost the focus since the shaders were loaded.
    pub needs_reload: bool,
}

/// The extent of a window of that inner size.
pub open spec fn window_extent(width: u32, height: u32) -> Extent3d {
    Extent3d { width, height, depth_or_array_layers: 1 }
}

impl FrameLoop {
    /// The extent of the targets that the provider hands out now.
    pub open spec fn spec_extent(self) -> Extent3d {
        window_extent(self.width, self.height)
    }

    /// The state after an event, and what the loop has to do.
    pub open spec fn step(self, event: Event) -> (FrameLoop, Action) {
        match event {
            Event::Resized { width, height } => (
                FrameLoop { width, height, ..self },
                Action::Reconfigure(window_extent(width, height)),
            ),
            Event::Focused(false) => (FrameLoop { needs_reload: true, ..self }, Action::Wait),
            Event::Focused(true) => if self.needs_reload {
                (FrameLoop { needs_reload: false, ..self }, Action::ReloadShaders)
            } else {
                (self, Action::Wait)
            },
            Event::CloseRequested => (self, Action::Exit),
            Event::MainEventsCleared => (self, Action::Redraw),
            Event::Other => (self, Action::Wait),
        }
    }

    /// The targets of a frame, given what the provider could acquire: none
    /// without a color image, and else targets of the current extent, with
    /// both attachments of that size.
    pub open spec fn targets_of(
        self,
        color: Option<u64>,
        depth: u64,
        format: TextureFormat,
    ) -> Option<ScreenTargets> {
        match color {
            Some(id) => Some(
                ScreenTargets {
                    extent: self.spec_extent(),
                    color: ColorTarget { id, width: self.width, height: self.height, format },
                    depth: DepthTarget { id: depth, width: self.width, height: self.height },
                },
            ),
            None => None,
        }
    }

    /// The state of a loop whose window has the given inner size.
    pub fn new(width: u32, height: u32) -> (state: FrameLoop)
        ensures
            state == (FrameLoop { width, height, needs_reload: false }),
    {
        FrameLoop { width, height, needs_reload: false }
    }

    /// The extent of the targets that the provider hands out now.
    #[verifier::when_used_as_spec(spec_extent)]
    pub fn extent(self) -> (extent: Extent3d)
        ensures
            extent == self.spec_extent(),
    {
        Extent3d { width: self.width, height: self.height, depth_or_array_layers: 1 }
    }

    /// Takes an event and says what the loop has to do.
    pub fn on_event(&mut self, event: Event) -> (action: Action)
        ensures
            (*final(self), action) == old(self).step(event),
    {
        match event {
            Event::Resized { width, height } => {
                self.width = width;
                self.height = height;
                Action::Reconfigure(self.extent())
            },
            Event::Focused(false) => {
                self.needs_reload = true;
                Action::Wait
            },
            Event::Focused(true) => {
                if self.needs_reload {
                    self.needs_reload = false;
                    Action::ReloadShaders
                } else {
                    Action::Wait
                }
            },
            Event::CloseRequested => Action::Exit,
            Event::MainEventsCleared => Action::Redraw,
            Event::Other => Action::Wait,
        }
    }

    /// The targets of the frame that is due. `color` names the image that
    /// the swap chain handed out, or is `None` if it had none ready: then
    /// there are no targets, and the frame is dropped. `depth` names the
    /// depth target and `format` is the format of the swap chain. The swap
    /// chain and the depth target were made for the current extent, so that
    /// is the size of the targets.
    pub fn frame_targets(&self, color: Option<u64>, depth: u64, format: TextureFormat) -> (targets:
        Option<ScreenTargets>)
        ensures
            targets == self.targets_of(color, depth, format),
            targets matches Some(t) ==> t.well_formed(),
    {
        match color {
            Some(id) => Some(
                ScreenTargets {
                    extent: self.extent(),
                    color: ColorTarget { id, width: self.width, height: self.height, format },
                    depth: DepthTarget { id: depth, width: self.width, height: self.height },
                },
            ),
            None => None,
        }
    }

    /// After a resize, the next frame fills the new extent and nothing
    /// else, and shows nothing of what the target held: whatever the state
    /// and the target's contents were, the frame composed on the targets
    /// that follow a resize to `width` by `height` defines exactly the
    /// texels of that size.
    pub proof fn lemma_resize_round_trip(
        self,
        width: u32,
        height: u32,
        color: u64,
        depth: u64,
        format: TextureFormat,
        scene: Autonomy,
        raster: spec_fn(RenderPass) -> Fragments,
        before: Surface,
    )
        ensures
            ({
                let resized = self.step(Event::Resized { width, height }).0;
                let targets = resized.targets_of(Some(color), depth, format)->0;
                let shown = after_submit(scene.commands(targets), raster, before);
                &&& targets.well_formed()
                &&& targets.extent == window_extent(width, height)
                &&& shown == after_submit(scene.commands(targets), raster, Map::empty())
                &&& forall|p: (int, int)|
                    shown.dom().contains(p) <==> 0 <= p.0 < width && 0 <= p.1 < height
            }),
    {
        let resized = self.step(Event::Resized { width, height }).0;
        let targets = resized.targets_of(Some(color), depth, format)->0;
        scene.lemma_frame_fills_target(targets, raster, before, Map::empty());
    }
}

} // verus!
