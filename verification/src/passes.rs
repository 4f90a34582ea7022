//! The steps of a frame: which targets each render pass writes, whether it
//! clears or keeps what is there, what it reads and what it draws.

use vstd::prelude::*;

verus! {

/// What a step can read or write.
#[derive(Clone, Copy, Debug, PartialEq, Eq, Structural)]
pub enum Target {
    /// The color of the layer that is being drawn, world or GUI.
    Game,
    /// The normals of that layer.
    Normal,
    /// The depth of that layer.
    Depth,
    /// The outlined layer.
    PostEffects,
    /// The world, composited.
    FirstCombine,
    /// The world and the GUI, composited.
    SecondCombine,
    /// What the GUI library draws.
    Egui,
    /// The image that is presented.
    Surface,
    /// The presented image in the capture format.
    Capture,
    /// The host-visible buffer of a capture.
    CaptureBuffer,
}

/// What a cleared attachment is cleared to.
#[derive(Clone, Copy, Debug, PartialEq, Eq, Structural)]
pub enum ClearValue {
    /// Opaque black, the background.
    Black,
    /// Nothing drawn.
    Transparent,
    /// The normal of a surface that faces nowhere.
    NormalNeutral,
    /// The depth value of the far plane.
    DepthFar,
}

/// What becomes of an attachment's contents when a pass begins.
#[derive(Clone, Copy, Debug, PartialEq, Eq, Structural)]
pub enum LoadOp {
    Clear(ClearValue),
    Load,
}

/// One target of a pass.
#[derive(Clone, Copy, Debug, PartialEq, Eq, Structural)]
pub struct Attachment {
    pub target: Target,
    pub load: LoadOp,
    pub store: bool,
}

/// The render passes of a frame.
#[derive(Clone, Copy, Debug, PartialEq, Eq, Structural)]
pub enum PassKind {
    Game,
    Extra,
    GamePostEffects,
    Overlay,
    FirstCombine,
    Gui,
    GuiPostEffects,
    SecondCombine,
    Egui,
    Screenshot,
}

/// The two batches of instances of a frame.
#[derive(Clone, Copy, Debug, PartialEq, Eq, Structural)]
pub enum InstanceSet {
    /// The tiles.
    World,
    /// What lies on the tiles: moving items, link lines, markers.
    Extra,
}

/// What a pass draws.
#[derive(Clone, Copy, Debug, PartialEq, Eq, Structural)]
pub enum Draw {
    /// No draw call.
    Skip,
    /// `count` indirect draws over a batch of instances.
    Indirect { set: InstanceSet, count: u32 },
    /// Three vertices that cover the screen, once.
    FullScreenTriangle,
    /// `count` vertices, once.
    Vertices { count: u32 },
    /// `count` GUI items, one indexed draw each.
    GuiItems { count: u32 },
    /// Whatever the GUI library draws.
    External,
}

/// The targets that a pass reads as input.
#[derive(Clone, Copy, Debug, PartialEq, Eq, Structural)]
pub struct Reads {
    pub game: bool,
    pub normal: bool,
    pub depth: bool,
    pub post_effects: bool,
    pub first_combine: bool,
    pub surface: bool,
}

/// One render pass.
#[derive(Clone, Copy, Debug, PartialEq, Eq, Structural)]
pub struct Pass {
    pub kind: PassKind,
    pub color: Attachment,
    pub normal: Option<Attachment>,
    pub depth: Option<Attachment>,
    pub reads: Reads,
    pub draw: Draw,
    /// The depth difference at which an outline is drawn, in millionths.
    pub depth_threshold_ppm: Option<u32>,
}

/// One step of a frame.
#[derive(Clone, Copy, Debug, PartialEq, Eq, Structural)]
pub enum Step {
    Render(Pass),
    /// Copies one target into another.
    Copy { from: Target, to: Target },
}

/// How much there is to draw in a frame.
#[derive(Clone, Copy, Debug, PartialEq, Eq, Structural)]
pub struct FrameCounts {
    /// The indirect draws of the world batch.
    pub world_draws: u32,
    /// The indirect draws of the extra batch.
    pub extra_draws: u32,
    /// The vertices of the overlay.
    pub overlay_vertices: u32,
    /// The GUI items.
    pub gui_items: u32,
    /// Whether the frame is captured.
    pub screenshot: bool,
}

/// The outline threshold for the world, in millionths.
pub const WORLD_DEPTH_THRESHOLD_PPM: u32 = 10;

/// The outline threshold for the GUI, in millionths.
pub const GUI_DEPTH_THRESHOLD_PPM: u32 = 250;

impl Reads {
    pub open spec fn nothing() -> Reads {
        Reads {
            game: false,
            normal: false,
            depth: false,
            post_effects: false,
            first_combine: false,
            surface: false,
        }
    }

    /// The color, the normals and the depth of the layer.
    pub open spec fn layer() -> Reads {
        Reads { game: true, normal: true, depth: true, ..Reads::nothing() }
    }

    pub open spec fn has(self, target: Target) -> bool {
        match target {
            Target::Game => self.game,
            Target::Normal => self.normal,
            Target::Depth => self.depth,
            Target::PostEffects => self.post_effects,
            Target::FirstCombine => self.first_combine,
            Target::Surface => self.surface,
            _ => false,
        }
    }
}

impl Attachment {
    pub open spec fn cleared(target: Target, value: ClearValue) -> Attachment {
        Attachment { target, load: LoadOp::Clear(value), store: true }
    }

    pub open spec fn loaded(target: Target, store: bool) -> Attachment {
        Attachment { target, load: LoadOp::Load, store }
    }
}

impl Pass {
    /// Whether `target` is an attachment of the pass.
    pub open spec fn attaches(self, target: Target) -> bool {
        ||| self.color.target == target
        ||| (self.normal matches Some(a) && a.target == target)
        ||| (self.depth matches Some(a) && a.target == target)
    }

    /// Whether the pass keeps what `target` holds when it begins.
    pub open spec fn loads(self, target: Target) -> bool {
        ||| (self.color.target == target && self.color.load == LoadOp::Load)
        ||| (self.normal matches Some(a) && a.target == target && a.load == LoadOp::Load)
        ||| (self.depth matches Some(a) && a.target == target && a.load == LoadOp::Load)
    }
}

impl Step {
    /// Whether the step writes `target`.
    pub open spec fn writes(self, target: Target) -> bool {
        match self {
            Step::Render(pass) => pass.attaches(target),
            Step::Copy { from, to } => to == target,
        }
    }

    /// Whether the step needs what `target` held before the step.
    pub open spec fn needs(self, target: Target) -> bool {
        match self {
            Step::Render(pass) => pass.loads(target) || pass.reads.has(target),
            Step::Copy { from, to } => from == target,
        }
    }

    /// Whether the step issues a draw call.
    pub open spec fn draws(self) -> bool {
        match self {
            Step::Render(pass) => pass.draw != Draw::Skip,
            Step::Copy { from, to } => false,
        }
    }
}

/// The draw of `count` indirect draws: none where there is none.
pub open spec fn indirect_or_skip(set: InstanceSet, count: u32) -> Draw {
    if count > 0 {
        Draw::Indirect { set, count }
    } else {
        Draw::Skip
    }
}

/// Clears color, normals and depth and draws the tiles.
pub open spec fn game_pass(world_draws: u32) -> Pass {
    Pass {
        kind: PassKind::Game,
        color: Attachment::cleared(Target::Game, ClearValue::Black),
        normal: Some(Attachment::cleared(Target::Normal, ClearValue::NormalNeutral)),
        depth: Some(Attachment::cleared(Target::Depth, ClearValue::DepthFar)),
        reads: Reads::nothing(),
        draw: indirect_or_skip(InstanceSet::World, world_draws),
        depth_threshold_ppm: None,
    }
}

/// Keeps what the game pass drew and draws the extra batch on top.
pub open spec fn extra_pass(extra_draws: u32) -> Pass {
    Pass {
        kind: PassKind::Extra,
        color: Attachment::loaded(Target::Game, true),
        normal: Some(Attachment::loaded(Target::Normal, true)),
        depth: Some(Attachment::loaded(Target::Depth, false)),
        reads: Reads::nothing(),
        draw: indirect_or_skip(InstanceSet::Extra, extra_draws),
        depth_threshold_ppm: None,
    }
}

/// Outlines the layer that was drawn last: a screen-space pass over its
/// color, normals and depth.
pub open spec fn post_effects_pass(kind: PassKind, depth_threshold_ppm: u32) -> Pass {
    Pass {
        kind,
        color: Attachment::cleared(Target::PostEffects, ClearValue::Black),
        normal: None,
        depth: None,
        reads: Reads::layer(),
        draw: Draw::FullScreenTriangle,
        depth_threshold_ppm: Some(depth_threshold_ppm),
    }
}

/// Draws the overlay onto the outlined world.
pub open spec fn overlay_pass(overlay_vertices: u32) -> Pass {
    Pass {
        kind: PassKind::Overlay,
        color: Attachment::loaded(Target::PostEffects, true),
        normal: None,
        depth: Some(Attachment::loaded(Target::Depth, false)),
        reads: Reads::nothing(),
        draw: if overlay_vertices > 0 {
            Draw::Vertices { count: overlay_vertices }
        } else {
            Draw::Skip
        },
        depth_threshold_ppm: None,
    }
}

/// Merges the outlined world into the first combine target.
pub open spec fn first_combine_pass() -> Pass {
    Pass {
        kind: PassKind::FirstCombine,
        color: Attachment::cleared(Target::FirstCombine, ClearValue::Black),
        normal: None,
        depth: None,
        reads: Reads { post_effects: true, ..Reads::nothing() },
        draw: Draw::FullScreenTriangle,
        depth_threshold_ppm: None,
    }
}

/// Clears color, normals and depth and draws the GUI items.
pub open spec fn gui_pass(gui_items: u32) -> Pass {
    Pass {
        kind: PassKind::Gui,
        color: Attachment::cleared(Target::Game, ClearValue::Transparent),
        normal: Some(Attachment::cleared(Target::Normal, ClearValue::NormalNeutral)),
        depth: Some(Attachment::cleared(Target::Depth, ClearValue::DepthFar)),
        reads: Reads::nothing(),
        draw: if gui_items > 0 {
            Draw::GuiItems { count: gui_items }
        } else {
            Draw::Skip
        },
        depth_threshold_ppm: None,
    }
}

/// Merges the outlined GUI and the composited world into the final target.
pub open spec fn second_combine_pass() -> Pass {
    Pass {
        kind: PassKind::SecondCombine,
        color: Attachment::cleared(Target::SecondCombine, ClearValue::Black),
        normal: None,
        depth: None,
        reads: Reads { post_effects: true, first_combine: true, ..Reads::nothing() },
        draw: Draw::FullScreenTriangle,
        depth_threshold_ppm: None,
    }
}

/// Lets the GUI library draw into its own target.
pub open spec fn egui_pass() -> Pass {
    Pass {
        kind: PassKind::Egui,
        color: Attachment::cleared(Target::Egui, ClearValue::Transparent),
        normal: None,
        depth: None,
        reads: Reads::nothing(),
        draw: Draw::External,
        depth_threshold_ppm: None,
    }
}

/// Converts the presented image to the capture format.
pub open spec fn screenshot_pass() -> Pass {
    Pass {
        kind: PassKind::Screenshot,
        color: Attachment::cleared(Target::Capture, ClearValue::Black),
        normal: None,
        depth: None,
        reads: Reads { surface: true, ..Reads::nothing() },
        draw: Draw::FullScreenTriangle,
        depth_threshold_ppm: None,
    }
}

/// The steps of every frame, in their order: the world, what lies on it, its
/// outlines, the overlay, the first combine; the GUI, its outlines, the
/// second combine; the GUI library; the copy into the presented image.
pub open spec fn frame_steps(counts: FrameCounts) -> Seq<Step> {
    seq![
        Step::Render(game_pass(counts.world_draws)),
        Step::Render(extra_pass(counts.extra_draws)),
        Step::Render(post_effects_pass(PassKind::GamePostEffects, WORLD_DEPTH_THRESHOLD_PPM)),
        Step::Render(overlay_pass(counts.overlay_vertices)),
        Step::Render(first_combine_pass()),
        Step::Render(gui_pass(counts.gui_items)),
        Step::Render(post_effects_pass(PassKind::GuiPostEffects, GUI_DEPTH_THRESHOLD_PPM)),
        Step::Render(second_combine_pass()),
        Step::Render(egui_pass()),
        Step::Copy { from: Target::SecondCombine, to: Target::Surface },
    ]
}

/// The two steps that a capture adds to a frame.
pub open spec fn capture_steps() -> Seq<Step> {
    seq![
        Step::Render(screenshot_pass()),
        Step::Copy { from: Target::Capture, to: Target::CaptureBuffer },
    ]
}

/// All steps of a frame: those of every frame, then those of the capture
/// where one was asked for.
pub open spec fn pass_sequence(counts: FrameCounts) -> Seq<Step> {
    if counts.screenshot {
        frame_steps(counts) + capture_steps()
    } else {
        frame_steps(counts)
    }
}

fn cleared(target: Target, value: ClearValue) -> (attachment: Attachment)
    ensures
        attachment == Attachment::cleared(target, value),
{
    Attachment { target, load: LoadOp::Clear(value), store: true }
}

fn loaded(target: Target, store: bool) -> (attachment: Attachment)
    ensures
        attachment == Attachment::loaded(target, store),
{
    Attachment { target, load: LoadOp::Load, store }
}

fn reads_nothing() -> (reads: Reads)
    ensures
        reads == Reads::nothing(),
{
    Reads {
        game: false,
        normal: false,
        depth: false,
        post_effects: false,
        first_combine: false,
        surface: false,
    }
}

/// A screen-space pass that clears `target` to black and covers it.
fn screen_pass(kind: PassKind, target: Target, reads: Reads, threshold: Option<u32>) -> (pass: Pass)
    ensures
        pass == (Pass {
            kind,
            color: Attachment::cleared(target, ClearValue::Black),
            normal: None,
            depth: None,
            reads,
            draw: Draw::FullScreenTriangle,
            depth_threshold_ppm: threshold,
        }),
{
    Pass {
        kind,
        color: cleared(target, ClearValue::Black),
        normal: None,
        depth: None,
        reads,
        draw: Draw::FullScreenTriangle,
        depth_threshold_ppm: threshold,
    }
}

/// A pass over color, normals and depth of the layer.
fn layer_pass(kind: PassKind, clear: Option<ClearValue>, draw: Draw) -> (pass: Pass)
    ensures
        pass == (Pass {
            kind,
            color: match clear {
                Some(value) => Attachment::cleared(Target::Game, value),
                None => Attachment::loaded(Target::Game, true),
            },
            normal: Some(
                match clear {
                    Some(value) => Attachment::cleared(Target::Normal, ClearValue::NormalNeutral),
                    None => Attachment::loaded(Target::Normal, true),
                },
            ),
            depth: Some(
                match clear {
                    Some(value) => Attachment::cleared(Target::Depth, ClearValue::DepthFar),
                    None => Attachment::loaded(Target::Depth, false),
                },
            ),
            reads: Reads::nothing(),
            draw,
            depth_threshold_ppm: None,
        }),
{
    match clear {
        Some(value) => Pass {
            kind,
            color: cleared(Target::Game, value),
            normal: Some(cleared(Target::Normal, ClearValue::NormalNeutral)),
            depth: Some(cleared(Target::Depth, ClearValue::DepthFar)),
            reads: reads_nothing(),
            draw,
            depth_threshold_ppm: None,
        },
        None => Pass {
            kind,
            color: loaded(Target::Game, true),
            normal: Some(loaded(Target::Normal, true)),
            depth: Some(loaded(Target::Depth, false)),
            reads: reads_nothing(),
            draw,
            depth_threshold_ppm: None,
        },
    }
}

/// Lists the steps of a frame in the order in which they are recorded.
///
/// A pass whose batch is empty is still begun, so that its attachments are
/// cleared or kept as later passes expect, but it issues no draw call.
pub fn plan_passes(counts: FrameCounts) -> (steps: Vec<Step>)
    ensures
        steps@ == pass_sequence(counts),
{
    let mut steps: Vec<Step> = Vec::new();
    let world = if counts.world_draws > 0 {
        Draw::Indirect { set: InstanceSet::World, count: counts.world_draws }
    } else {
        Draw::Skip
    };
    steps.push(Step::Render(layer_pass(PassKind::Game, Some(ClearValue::Black), world)));
    let extra = if counts.extra_draws > 0 {
        Draw::Indirect { set: InstanceSet::Extra, count: counts.extra_draws }
    } else {
        Draw::Skip
    };
    steps.push(Step::Render(layer_pass(PassKind::Extra, None, extra)));
    let layer = Reads { game: true, normal: true, depth: true, ..reads_nothing() };
    steps.push(
        Step::Render(
            screen_pass(
                PassKind::GamePostEffects,
                Target::PostEffects,
                layer,
                Some(WORLD_DEPTH_THRESHOLD_PPM),
            ),
        ),
    );
    let overlay = if counts.overlay_vertices > 0 {
        Draw::Vertices { count: counts.overlay_vertices }
    } else {
        Draw::Skip
    };
    steps.push(
        Step::Render(
            Pass {
                kind: PassKind::Overlay,
                color: loaded(Target::PostEffects, true),
                normal: None,
                depth: Some(loaded(Target::Depth, false)),
                reads: reads_nothing(),
                draw: overlay,
                depth_threshold_ppm: None,
            },
        ),
    );
    steps.push(
        Step::Render(
            screen_pass(
                PassKind::FirstCombine,
                Target::FirstCombine,
                Reads { post_effects: true, ..reads_nothing() },
                None,
            ),
        ),
    );
    let gui = if counts.gui_items > 0 {
        Draw::GuiItems { count: counts.gui_items }
    } else {
        Draw::Skip
    };
    steps.push(Step::Render(layer_pass(PassKind::Gui, Some(ClearValue::Transparent), gui)));
    steps.push(
        Step::Render(
            screen_pass(
                PassKind::GuiPostEffects,
                Target::PostEffects,
                layer,
                Some(GUI_DEPTH_THRESHOLD_PPM),
            ),
        ),
    );
    steps.push(
        Step::Render(
            screen_pass(
                PassKind::SecondCombine,
                Target::SecondCombine,
                Reads { post_effects: true, first_combine: true, ..reads_nothing() },
                None,
            ),
        ),
    );
    steps.push(
        Step::Render(
            Pass {
                kind: PassKind::Egui,
                color: cleared(Target::Egui, ClearValue::Transparent),
                normal: None,
                depth: None,
                reads: reads_nothing(),
                draw: Draw::External,
                depth_threshold_ppm: None,
            },
        ),
    );
    steps.push(Step::Copy { from: Target::SecondCombine, to: Target::Surface });
    assert(steps@ =~= frame_steps(counts));
    if counts.screenshot {
        steps.push(
            Step::Render(
                screen_pass(
                    PassKind::Screenshot,
                    Target::Capture,
                    Reads { surface: true, ..reads_nothing() },
                    None,
                ),
            ),
        );
        steps.push(Step::Copy { from: Target::Capture, to: Target::CaptureBuffer });
        assert(steps@ =~= frame_steps(counts) + capture_steps());
    }
    steps
}

/// Whatever a step keeps or reads was written by an earlier step of the same
/// frame: no pass starts from contents that the frame has not defined.
pub proof fn lemma_nothing_undefined(counts: FrameCounts, i: int, target: Target)
    requires
        0 <= i < pass_sequence(counts).len(),
        pass_sequence(counts)[i].needs(target),
    ensures
        exists|j: int| 0 <= j < i && #[trigger] pass_sequence(counts)[j].writes(target),
{
    let steps = pass_sequence(counts);
    assert(steps.len() == 10 || steps.len() == 12);
    assert(steps[0].writes(Target::Game));
    assert(steps[0].writes(Target::Normal));
    assert(steps[0].writes(Target::Depth));
    assert(steps[2].writes(Target::PostEffects));
    assert(steps[4].writes(Target::FirstCombine));
    assert(steps[7].writes(Target::SecondCombine));
    assert(steps[9].writes(Target::Surface));
    if counts.screenshot {
        assert(steps[10].writes(Target::Capture));
    }
}

/// The steps that every frame has come in one fixed order, whatever there is
/// to draw, and a capture only adds its two steps at the end.
pub proof fn lemma_fixed_order(counts: FrameCounts)
    ensures
        pass_sequence(counts).len() == if counts.screenshot {
            12int
        } else {
            10int
        },
        pass_sequence(counts).take(10) == frame_steps(counts),
        forall|i: int|
            0 <= i < 9 ==> (#[trigger] pass_sequence(counts)[i] matches Step::Render(pass)
                && pass.kind == seq![
                PassKind::Game,
                PassKind::Extra,
                PassKind::GamePostEffects,
                PassKind::Overlay,
                PassKind::FirstCombine,
                PassKind::Gui,
                PassKind::GuiPostEffects,
                PassKind::SecondCombine,
                PassKind::Egui,
            ][i]),
        pass_sequence(counts)[9] == (Step::Copy { from: Target::SecondCombine, to: Target::Surface }),
{
    assert(pass_sequence(counts).take(10) =~= frame_steps(counts));
}

/// A pass whose batch is empty issues no draw call, and one whose batch is
/// not empty draws all of it.
pub proof fn lemma_empty_batches_are_skipped(counts: FrameCounts)
    ensures
        pass_sequence(counts)[0].draws() <==> counts.world_draws > 0,
        pass_sequence(counts)[1].draws() <==> counts.extra_draws > 0,
        pass_sequence(counts)[3].draws() <==> counts.overlay_vertices > 0,
        pass_sequence(counts)[5].draws() <==> counts.gui_items > 0,
        counts.world_draws > 0 ==> (pass_sequence(counts)[0] matches Step::Render(pass)
            && pass.draw == (Draw::Indirect {
            set: InstanceSet::World,
            count: counts.world_draws,
        })),
        counts.extra_draws > 0 ==> (pass_sequence(counts)[1] matches Step::Render(pass)
            && pass.draw == (Draw::Indirect {
            set: InstanceSet::Extra,
            count: counts.extra_draws,
        })),
{
}

} // verus!
