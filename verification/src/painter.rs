//! What a submitted frame leaves on its target.
//!
//! The device is not run here. Its part is a parameter: `raster` gives, for
//! a pass, the texels that the pass's draw call covers and the color it
//! shades each with, whatever the pipeline, the buffers and the textures
//! make of it. Everything else is the meaning of load, clear and store, and
//! of the order of submission. No pass has a depth attachment and no
//! pipeline blends, so a covered texel takes the color of the draw call.
//!
//! The laws at the end hold for every `raster`: they follow from nothing
//! but the order in which the compositor lays out a frame.

use crate::command::{CommandBuffer, RenderPass};
use crate::compositor::Autonomy;
use crate::target::{ColorTarget, ScreenTargets};
use crate::types::{background_color, Color, LoadOp};
use vstd::prelude::*;

verus! {

/// The contents of a color target: the color of every texel that holds a
/// defined value, by column and row.
pub type Surface = Map<(int, int), Color>;

/// What a draw call puts on a target: the texels it covers, each with the
/// color it is shaded.
pub type Fragments = Map<(int, int), Color>;

/// The texel lies on the target.
pub open spec fn on_target(target: ColorTarget, p: (int, int)) -> bool {
    0 <= p.0 < target.width && 0 <= p.1 < target.height
}

/// The pass draws on the texel.
pub open spec fn covers(pass: RenderPass, fragments: Fragments, p: (int, int)) -> bool {
    pass.draw is Some && fragments.dom().contains(p)
}

/// The target after one pass. A texel that the draw call covers takes its
/// color. Any other texel takes the clear color, if the pass clears, and
/// keeps what it held, if the pass loads. A pass that does not store leaves
/// nothing defined.
pub open spec fn after_pass(pass: RenderPass, fragments: Fragments, before: Surface) -> Surface {
    Map::new(
        |p: (int, int)|
            on_target(pass.target, p) && pass.ops.store && (pass.ops.load is Clear || covers(
                pass,
                fragments,
                p,
            ) || before.dom().contains(p)),
        |p: (int, int)|
            if covers(pass, fragments, p) {
                fragments[p]
            } else {
                match pass.ops.load {
                    LoadOp::Clear(color) => color,
                    LoadOp::Load => before[p],
                }
            },
    )
}

/// The target after the command buffers were submitted in their order.
pub open spec fn after_submit(
    commands: Seq<CommandBuffer>,
    raster: spec_fn(RenderPass) -> Fragments,
    before: Surface,
) -> Surface
    decreases commands.len(),
{
    if commands.len() == 0 {
        before
    } else {
        let last = commands.last().pass;
        after_pass(last, raster(last), after_submit(commands.drop_last(), raster, before))
    }
}

/// The commands are laid out as a frame on the target: the first pass
/// clears it, every later pass loads it, and all of them store.
pub open spec fn is_frame(commands: Seq<CommandBuffer>, target: ColorTarget) -> bool {
    &&& commands.len() >= 1
    &&& commands[0].pass.target == target
    &&& commands[0].pass.ops.load is Clear
    &&& commands[0].pass.ops.store
    &&& forall|i: int|
        1 <= i < commands.len() ==> (#[trigger] commands[i]).pass.target == target
            && commands[i].pass.preserves_target()
}

/// The color that a frame shows at a texel of its target: that of the last
/// pass that covers the texel, and the clear color where none does.
pub open spec fn shown(
    commands: Seq<CommandBuffer>,
    raster: spec_fn(RenderPass) -> Fragments,
    p: (int, int),
) -> Color
    decreases commands.len(),
{
    if commands.len() == 0 {
        arbitrary()
    } else {
        let last = commands.last().pass;
        if covers(last, raster(last), p) {
            raster(last)[p]
        } else {
            match last.ops.load {
                LoadOp::Clear(color) => color,
                LoadOp::Load => shown(commands.drop_last(), raster, p),
            }
        }
    }
}

/// The picture of a frame: on every texel of the target, and on no other,
/// the color that the frame shows there.
pub open spec fn picture(
    commands: Seq<CommandBuffer>,
    raster: spec_fn(RenderPass) -> Fragments,
    target: ColorTarget,
) -> Surface {
    Map::new(|p: (int, int)| on_target(target, p), |p: (int, int)| shown(commands, raster, p))
}

/// A submitted frame leaves its picture on the target, whatever the target
/// held before.
pub proof fn lemma_frame_leaves_picture(
    commands: Seq<CommandBuffer>,
    raster: spec_fn(RenderPass) -> Fragments,
    target: ColorTarget,
    before: Surface,
)
    requires
        is_frame(commands, target),
    ensures
        after_submit(commands, raster, before) == picture(commands, raster, target),
    decreases commands.len(),
{
    if commands.len() > 1 {
        lemma_frame_leaves_picture(commands.drop_last(), raster, target, before);
    }
}

/// In a frame, a texel that no pass covers shows the clear color.
pub proof fn lemma_uncovered_shows_clear(
    commands: Seq<CommandBuffer>,
    raster: spec_fn(RenderPass) -> Fragments,
    target: ColorTarget,
    p: (int, int),
)
    requires
        is_frame(commands, target),
        forall|i: int|
            0 <= i < commands.len() ==> !covers(
                (#[trigger] commands[i]).pass,
                raster(commands[i].pass),
                p,
            ),
    ensures
        commands[0].pass.ops.load == LoadOp::Clear(shown(commands, raster, p)),
    decreases commands.len(),
{
    if commands.len() > 1 {
        lemma_uncovered_shows_clear(commands.drop_last(), raster, target, p);
    }
}

/// In a frame, a texel shows the color of the last pass that covers it:
/// if pass `i` covers the texel and no later pass does, the texel shows
/// what pass `i` drew there.
pub proof fn lemma_last_cover_shows(
    commands: Seq<CommandBuffer>,
    raster: spec_fn(RenderPass) -> Fragments,
    target: ColorTarget,
    i: int,
    p: (int, int),
)
    requires
        is_frame(commands, target),
        0 <= i < commands.len(),
        covers(commands[i].pass, raster(commands[i].pass), p),
        forall|j: int|
            i < j < commands.len() ==> !covers(
                (#[trigger] commands[j]).pass,
                raster(commands[j].pass),
                p,
            ),
    ensures
        shown(commands, raster, p) == raster(commands[i].pass)[p],
    decreases commands.len(),
{
    if i < commands.len() - 1 {
        lemma_last_cover_shows(commands.drop_last(), raster, target, i, p);
    }
}

impl Autonomy {
    /// The pass that drawable `i` records in a frame on the targets.
    pub open spec fn pass_of(&self, i: int, targets: ScreenTargets) -> RenderPass {
        self.registered()[i].recorded(targets, self.store().spec_bind_group()).pass
    }

    /// The command buffers that the compositor lays out are a frame on the
    /// color target: one more than there are drawables, the clear to the
    /// background first, then the pass of each drawable in the order of
    /// registration, each loading the target.
    pub proof fn lemma_commands_are_frame(&self, targets: ScreenTargets)
        ensures
            self.commands(targets).len() == self.registered().len() + 1,
            self.commands(targets)[0].pass.ops.load == LoadOp::Clear(background_color()),
            self.commands(targets)[0].pass.draw is None,
            forall|i: int|
                0 <= i < self.registered().len() ==> (#[trigger] self.commands(targets)[i
                    + 1]).pass == self.pass_of(i, targets),
            is_frame(self.commands(targets), targets.color),
    {
        assert forall|i: int| 0 <= i < self.registered().len() implies (#[trigger] self.commands(
            targets,
        )[i + 1]).pass.preserves_target() by {
            self.registered()[i].lemma_recorded_loads(targets, self.store().spec_bind_group());
        }
    }

    /// What a frame leaves on its target does not depend on what the target
    /// held before, and it fills the target exactly: every texel inside the
    /// extent of the targets is defined and no texel outside is. So the
    /// first frame after a resize shows nothing of the frames before it.
    pub proof fn lemma_frame_fills_target(
        &self,
        targets: ScreenTargets,
        raster: spec_fn(RenderPass) -> Fragments,
        before: Surface,
        other: Surface,
    )
        requires
            targets.well_formed(),
        ensures
            after_submit(self.commands(targets), raster, before) == after_submit(
                self.commands(targets),
                raster,
                other,
            ),
            forall|p: (int, int)|
                after_submit(self.commands(targets), raster, before).dom().contains(p) <==> 0
                    <= p.0 < targets.extent.width && 0 <= p.1 < targets.extent.height,
    {
        self.lemma_commands_are_frame(targets);
        lemma_frame_leaves_picture(self.commands(targets), raster, targets.color, before);
        lemma_frame_leaves_picture(self.commands(targets), raster, targets.color, other);
    }

    /// Two frames in a row, composed with the same camera on the same
    /// targets, leave the same picture. `next` is the scene as the first
    /// frame left it: the same drawables and the same bindings. Its
    /// commands, submitted on top of what the first frame left, leave that
    /// unchanged.
    pub proof fn lemma_frame_repeats(
        &self,
        next: Autonomy,
        targets: ScreenTargets,
        raster: spec_fn(RenderPass) -> Fragments,
        before: Surface,
    )
        requires
            next.registered() == self.registered(),
            next.store().spec_bind_group() == self.store().spec_bind_group(),
        ensures
            next.commands(targets) == self.commands(targets),
            ({
                let first = after_submit(self.commands(targets), raster, before);
                after_submit(next.commands(targets), raster, first) == first
            }),
    {
        let first = after_submit(self.commands(targets), raster, before);
        self.lemma_commands_are_frame(targets);
        lemma_frame_leaves_picture(self.commands(targets), raster, targets.color, before);
        lemma_frame_leaves_picture(self.commands(targets), raster, targets.color, first);
    }

    /// Where drawables overlap, the one registered last is seen: a texel of
    /// the target that drawable `i` covers, and no drawable after it, has
    /// the color that drawable `i` gave it. It is no blend and not the
    /// background.
    pub proof fn lemma_later_drawable_wins(
        &self,
        targets: ScreenTargets,
        raster: spec_fn(RenderPass) -> Fragments,
        before: Surface,
        i: int,
        p: (int, int),
    )
        requires
            0 <= i < self.registered().len(),
            on_target(targets.color, p),
            raster(self.pass_of(i, targets)).dom().contains(p),
            forall|j: int|
                i < j < self.registered().len() ==> !raster(
                    #[trigger] self.pass_of(j, targets),
                ).dom().contains(p),
        ensures
            after_submit(self.commands(targets), raster, before)[p] == raster(
                self.pass_of(i, targets),
            )[p],
    {
        let commands = self.commands(targets);
        self.lemma_commands_are_frame(targets);
        lemma_frame_leaves_picture(commands, raster, targets.color, before);
        assert forall|j: int| i + 1 < j < commands.len() implies !covers(
            (#[trigger] commands[j]).pass,
            raster(commands[j].pass),
            p,
        ) by {
            assert(commands[(j - 1) + 1].pass == self.pass_of(j - 1, targets));
        }
        lemma_last_cover_shows(commands, raster, targets.color, i + 1, p);
    }

    /// In a scene of a triangle and a terrain registered after it, a texel
    /// of the target that both cover has the terrain's color.
    pub proof fn lemma_terrain_over_triangle(
        &self,
        targets: ScreenTargets,
        raster: spec_fn(RenderPass) -> Fragments,
        before: Surface,
        p: (int, int),
    )
        requires
            self.registered().len() == 2,
            self.registered()[0] is Triangle,
            self.registered()[1] is Terrain,
            on_target(targets.color, p),
            raster(self.pass_of(0, targets)).dom().contains(p),
            raster(self.pass_of(1, targets)).dom().contains(p),
        ensures
            after_submit(self.commands(targets), raster, before)[p] == raster(
                self.pass_of(1, targets),
            )[p],
    {
        self.lemma_later_drawable_wins(targets, raster, before, 1, p);
    }

    /// A texel of the target that no drawable covers has the background
    /// color. With no drawables registered, that is every texel.
    pub proof fn lemma_background_elsewhere(
        &self,
        targets: ScreenTargets,
        raster: spec_fn(RenderPass) -> Fragments,
        before: Surface,
        p: (int, int),
    )
        requires
            on_target(targets.color, p),
            forall|j: int|
                0 <= j < self.registered().len() ==> !raster(
                    #[trigger] self.pass_of(j, targets),
                ).dom().contains(p),
        ensures
            after_submit(self.commands(targets), raster, before)[p] == background_color(),
    {
        let commands = self.commands(targets);
        self.lemma_commands_are_frame(targets);
        lemma_frame_leaves_picture(commands, raster, targets.color, before);
        assert forall|j: int| 0 <= j < commands.len() implies !covers(
            (#[trigger] commands[j]).pass,
            raster(commands[j].pass),
            p,
        ) by {
            if j > 0 {
                assert(commands[(j - 1) + 1].pass == self.pass_of(j - 1, targets));
            }
        }
        lemma_uncovered_shows_clear(commands, raster, targets.color, p);
    }

    /// A scene without drawables leaves one solid field of the background
    /// color, as large as the target.
    pub proof fn lemma_empty_scene_is_solid(
        &self,
        targets: ScreenTargets,
        raster: spec_fn(RenderPass) -> Fragments,
        before: Surface,
    )
        requires
            self.registered().len() == 0,
        ensures
            self.commands(targets).len() == 1,
            after_submit(self.commands(targets), raster, before) == Map::new(
                |p: (int, int)| on_target(targets.color, p),
                |p: (int, int)| background_color(),
            ),
    {
        self.lemma_commands_are_frame(targets);
        lemma_frame_leaves_picture(self.commands(targets), raster, targets.color, before);
        assert forall|p: (int, int)| on_target(targets.color, p) implies after_submit(
            self.commands(targets),
            raster,
            before,
        )[p] == background_color() by {
            self.lemma_background_elsewhere(targets, raster, before, p);
        }
    }
}

} // verus!
