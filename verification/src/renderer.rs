//! One frame from end to end: the scene that the simulation's state makes,
//! and the plan by which the scene, the GUI and the overlay are drawn.

use crate::animation::{AnimationSampler, TransactionRecord};
use crate::batch::{
    batch, batched, lemma_grouped_is_permutation, lemma_model_order,
    lemma_model_order_counts_models, models, Batch, BatchError, IndexRange, IndirectDrawDescriptor,
};
use crate::colors::Rgba;
use crate::coord::{TileCoord, TileUnit};
use crate::coord_map::CoordMap;
use crate::data::DataMap;
use crate::gui::{
    gui_draws, gui_draws_of, upscale_size, upscaled_size, GuiDraw, GuiError, GuiItem, SurfaceSize,
};
use crate::id::Id;
use crate::instance::{InstanceData, LightPos, RenderUnit};
use crate::passes::{pass_sequence, plan_passes, FrameCounts, Step};
use crate::resources::ResourceManager;
use crate::world::{
    apply_tints, augment, collect_instances, fill_gaps, link_lines, unit_instances, visible_units,
    CullingWindow,
};
use vstd::prelude::*;

verus! {

/// The number of a tick of the simulation.
pub type TickUnit = u16;

/// Where the camera stands and how far it sees.
#[derive(Clone, Copy, Debug)]
pub struct Camera {
    /// The tile under the camera.
    pub coord: TileCoord,
    /// How many coordinates the frame shows along each axis.
    pub culling_range: (TileUnit, TileUnit),
}

/// What a frame is rendered from, besides the state of the simulation.
pub struct GameSetup {
    pub resource_man: ResourceManager,
    pub camera: Camera,
    pub sampler: AnimationSampler,
}

/// Why a frame could not be rendered.
#[derive(Clone, Copy, Debug, PartialEq, Eq, Structural)]
pub enum RenderError {
    /// The kind of tile that stands for no tile is not registered, or has
    /// no model.
    NoneTileMissing,
    /// The culling window reaches beyond the coordinates.
    WindowOutOfRange,
    /// The tiles could not be batched.
    World(BatchError),
    /// What lies on the tiles could not be batched.
    Extra(BatchError),
    /// The GUI items could not be drawn.
    Gui(GuiError),
    /// The overlay has more vertices than a draw can count.
    TooManyOverlayVertices,
    /// The layer targets for this surface are wider or higher than 32 bits count.
    SurfaceTooLarge,
}

/// Whether a frame is drawn at all.
#[derive(Clone, Copy, Debug, PartialEq, Eq, Structural)]
pub enum FrameStart {
    /// The surface has no area: nothing is drawn.
    Skip,
    /// The frame is drawn, after the targets were made anew for a new size.
    Draw { recreate: Option<SurfaceSize> },
}

/// What can go wrong when the image for a frame is acquired.
#[derive(Clone, Copy, Debug, PartialEq, Eq, Structural)]
pub enum SurfaceFault {
    /// No image came in time.
    Timeout,
    /// The surface has changed and has to be configured anew.
    Outdated,
    /// The surface is gone and has to be made anew.
    Lost,
    /// The device has no memory left.
    OutOfMemory,
}

/// What follows from a fault of the surface.
#[derive(Clone, Copy, Debug, PartialEq, Eq, Structural)]
pub enum Recovery {
    /// The frame is skipped.
    SkipFrame,
    /// The surface is made anew and the frame is skipped.
    RecreateSurface,
    /// Nothing can go on.
    Abort,
}

/// What follows from a fault: a stale surface is made anew, a late image
/// costs the frame, and only exhausted memory is fatal.
pub open spec fn recovery_of(fault: SurfaceFault) -> Recovery {
    match fault {
        SurfaceFault::Timeout => Recovery::SkipFrame,
        SurfaceFault::Outdated => Recovery::RecreateSurface,
        SurfaceFault::Lost => Recovery::RecreateSurface,
        SurfaceFault::OutOfMemory => Recovery::Abort,
    }
}

/// Computes [`recovery_of`].
pub fn recover(fault: SurfaceFault) -> (recovery: Recovery)
    ensures
        recovery == recovery_of(fault),
{
    match fault {
        SurfaceFault::Timeout => Recovery::SkipFrame,
        SurfaceFault::Outdated | SurfaceFault::Lost => Recovery::RecreateSurface,
        SurfaceFault::OutOfMemory => Recovery::Abort,
    }
}

/// Whether a surface of this size has no area.
pub open spec fn is_empty(size: SurfaceSize) -> bool {
    size.width == 0 || size.height == 0
}

/// Computes [`is_empty`].
pub fn surface_is_empty(size: SurfaceSize) -> (empty: bool)
    ensures
        empty == is_empty(size),
{
    size.width == 0 || size.height == 0
}

/// Whether the frame is drawn, for a window of size `window` and a new size
/// that the surface may have been given since the last frame.
pub open spec fn frame_start_of(window: SurfaceSize, new_size: Option<SurfaceSize>) -> FrameStart {
    if is_empty(window) {
        FrameStart::Skip
    } else {
        match new_size {
            Some(size) => if is_empty(size) {
                FrameStart::Skip
            } else {
                FrameStart::Draw { recreate: Some(size) }
            },
            None => FrameStart::Draw { recreate: None },
        }
    }
}

/// Computes [`frame_start_of`].
pub fn frame_start(window: SurfaceSize, new_size: Option<SurfaceSize>) -> (start: FrameStart)
    ensures
        start == frame_start_of(window, new_size),
{
    if surface_is_empty(window) {
        return FrameStart::Skip;
    }
    match new_size {
        Some(size) => if surface_is_empty(size) {
            FrameStart::Skip
        } else {
            FrameStart::Draw { recreate: Some(size) }
        },
        None => FrameStart::Draw { recreate: None },
    }
}

/// The glyph of a transaction at `now`: lit from the camera, with the model
/// of the item that travels.
pub open spec fn glyph_of(
    record: TransactionRecord,
    now: u64,
    setup: &GameSetup,
) -> (InstanceData, Id) {
    (
        InstanceData {
            model_matrix: setup.sampler.sampled(record, now),
            light_pos: LightPos::Camera,
            ..InstanceData::plain()
        },
        setup.resource_man.item_model_of(record.item),
    )
}

/// The glyphs of the transactions that are under way at `now`, in the
/// transactions' order. A stale transaction has no glyph.
pub open spec fn glyphs(records: Seq<TransactionRecord>, now: u64, setup: &GameSetup) -> Seq<
    (InstanceData, Id),
>
    decreases records.len(),
{
    if records.len() == 0 {
        Seq::empty()
    } else {
        let before = glyphs(records.drop_last(), now, setup);
        if setup.sampler.stale(records.last(), now) {
            before
        } else {
            before.push(glyph_of(records.last(), now, setup))
        }
    }
}

/// The scene of a frame.
pub struct Scene {
    /// What is shown at every coordinate.
    pub units: CoordMap<RenderUnit>,
    /// The instances of the units, in the order of the walk.
    pub instances: Vec<(InstanceData, Id)>,
    /// What lies on the tiles: the caller's own instances, the lines of the
    /// links, the glyphs of the transactions.
    pub extra_instances: Vec<(InstanceData, Id)>,
}

/// What a plan holds, as plain values.
pub struct PlanView<V, D> {
    pub world_instances: Seq<(InstanceData, Id)>,
    pub world_draws: Seq<IndirectDrawDescriptor>,
    pub extra_instances: Seq<(InstanceData, Id)>,
    pub extra_draws: Seq<IndirectDrawDescriptor>,
    pub gui_draws: Seq<GuiDraw<V, D>>,
    pub viewport: SurfaceSize,
    pub steps: Seq<Step>,
}

/// How a frame is drawn.
pub struct Plan<V, D> {
    /// The batch of the tiles.
    pub world: Batch<InstanceData>,
    /// The batch of what lies on the tiles.
    pub extra: Batch<InstanceData>,
    /// The draws of the GUI pass.
    pub gui_draws: Vec<GuiDraw<V, D>>,
    /// The size of the layer targets, which is the viewport of the batches.
    pub viewport: SurfaceSize,
    /// The steps of the frame, in their order.
    pub steps: Vec<Step>,
}

impl<V, D> View for Plan<V, D> {
    type V = PlanView<V, D>;

    open spec fn view(&self) -> PlanView<V, D> {
        PlanView {
            world_instances: self.world.instances@,
            world_draws: self.world.draws@,
            extra_instances: self.extra.instances@,
            extra_draws: self.extra.draws@,
            gui_draws: self.gui_draws@,
            viewport: self.viewport,
            steps: self.steps@,
        }
    }
}

/// The plan for a frame, or the first reason why there is none: the two
/// batches, the draws of the GUI items, and the steps with as many draws as
/// the batches, the overlay and the GUI have.
pub open spec fn planned<V, D>(
    geometry: Map<Id, IndexRange>,
    size: SurfaceSize,
    instances: Seq<(InstanceData, Id)>,
    extra_instances: Seq<(InstanceData, Id)>,
    gui_items: Seq<GuiItem<V, D>>,
    overlay_vertices: nat,
    screenshot: bool,
) -> Result<PlanView<V, D>, RenderError> {
    match batched(instances, geometry) {
        Err(error) => Err(RenderError::World(error)),
        Ok(world) => match batched(extra_instances, geometry) {
            Err(error) => Err(RenderError::Extra(error)),
            Ok(extra) => if gui_items.len() > u32::MAX {
                Err(RenderError::Gui(GuiError::TooManyItems))
            } else {
                match gui_draws_of(gui_items, size, geometry, gui_items.len()) {
                    Err(error) => Err(RenderError::Gui(error)),
                    Ok(gui_draws) => if overlay_vertices > u32::MAX {
                        Err(RenderError::TooManyOverlayVertices)
                    } else {
                        match upscaled_size(size) {
                            None => Err(RenderError::SurfaceTooLarge),
                            Some(viewport) => Ok(
                                PlanView {
                                    world_instances: world.0,
                                    world_draws: world.1,
                                    extra_instances: extra.0,
                                    extra_draws: extra.1,
                                    gui_draws,
                                    viewport,
                                    steps: pass_sequence(
                                        FrameCounts {
                                            world_draws: world.1.len() as u32,
                                            extra_draws: extra.1.len() as u32,
                                            overlay_vertices: overlay_vertices as u32,
                                            gui_items: gui_items.len() as u32,
                                            screenshot,
                                        },
                                    ),
                                },
                            ),
                        }
                    },
                }
            },
        },
    }
}

/// The renderer's own state between frames.
pub struct Renderer {
    data_cache: CoordMap<DataMap>,
    last_tiles_update: Option<TickUnit>,
}

impl Renderer {
    /// The data of the tiles of the last frame.
    pub closed spec fn data_cache(&self) -> Map<TileCoord, DataMap> {
        self.data_cache@
    }

    /// The tick at which the tiles were last taken over.
    pub closed spec fn last_tiles_update(&self) -> Option<TickUnit> {
        self.last_tiles_update
    }

    /// A renderer that has drawn no frame.
    pub fn new() -> (renderer: Renderer)
        ensures
            renderer.data_cache() == Map::<TileCoord, DataMap>::empty(),
            renderer.last_tiles_update() == None::<TickUnit>,
    {
        Renderer { data_cache: CoordMap::new(), last_tiles_update: None }
    }

    /// Forgets when the tiles were last taken over.
    pub fn reset_last_tiles_update(&mut self)
        ensures
            final(self).last_tiles_update() == None::<TickUnit>,
            final(self).data_cache() == old(self).data_cache(),
    {
        self.last_tiles_update = None;
    }

    /// Makes the scene of a frame from the state of the simulation.
    ///
    /// The data of the tiles is kept as the renderer's cache. Every unit of
    /// the simulation is shown as its tile's data has it, every coordinate of
    /// the culling window that has no unit gets the unit of no tile, and
    /// every tinted coordinate gets its tint. The links of the tiles and the
    /// transactions that are under way are added to the caller's extra
    /// instances: lines first, glyphs after them.
    pub fn render(
        &mut self,
        setup: &GameSetup,
        now: u64,
        data: CoordMap<DataMap>,
        map_render_info: &CoordMap<RenderUnit>,
        tile_tints: &Vec<(TileCoord, Rgba)>,
        extra_instances: Vec<(InstanceData, Id)>,
        records: &Vec<TransactionRecord>,
    ) -> (scene: Result<Scene, RenderError>)
        requires
            data.wf(),
            map_render_info.wf(),
        ensures
            final(self).data_cache() == data@,
            final(self).last_tiles_update() == old(self).last_tiles_update(),
            match (
                setup.resource_man.registry.none_model_of(),
                CullingWindow::around(setup.camera.coord, setup.camera.culling_range),
            ) {
                (None, _) => scene matches Err(error) && error == RenderError::NoneTileMissing,
                (Some(_), None) => scene matches Err(error) && error
                    == RenderError::WindowOutOfRange,
                (Some(none), Some(window)) => {
                    &&& scene matches Ok(made)
                    &&& made.units.wf()
                    &&& made.units@ == visible_units(
                        map_render_info@,
                        data@,
                        &setup.resource_man,
                        window,
                        none,
                        tile_tints@,
                    )
                    &&& made.instances@ == unit_instances(made.units.entries())
                    &&& made.extra_instances@ == extra_instances@ + link_lines(
                        map_render_info.entries(),
                        data@,
                        &setup.resource_man,
                    ) + glyphs(records@, now, setup)
                },
            },
    {
        self.data_cache = data;
        let none = match setup.resource_man.registry.none_model() {
            Some(none) => none,
            None => {
                return Err(RenderError::NoneTileMissing);
            },
        };
        let window = match CullingWindow::new(setup.camera.coord, setup.camera.culling_range) {
            Some(window) => window,
            None => {
                return Err(RenderError::WindowOutOfRange);
            },
        };
        let mut extras = extra_instances;
        let mut units = augment(map_render_info, &self.data_cache, &setup.resource_man, &mut extras);
        fill_gaps(&mut units, window, none);
        apply_tints(&mut units, tile_tints);
        let instances = collect_instances(&units);

        let ghost lines = extras@;
        let mut i: usize = 0;
        proof {
            assert(records@.take(0) =~= Seq::<TransactionRecord>::empty());
            assert(extras@ =~= lines + glyphs(records@.take(0), now, setup));
        }
        while i < records.len()
            invariant
                i <= records@.len(),
                extras@ == lines + glyphs(records@.take(i as int), now, setup),
            decreases records@.len() - i,
        {
            let record = &records[i];
            if !setup.sampler.is_stale(record, now) {
                let instance = InstanceData::default().with_model_matrix(
                    setup.sampler.sample(record, now),
                ).with_light_pos(LightPos::Camera);
                extras.push((instance, setup.resource_man.get_item_model(record.item)));
            }
            proof {
                assert(records@.take(i + 1).drop_last() =~= records@.take(i as int));
                assert(records@.take(i + 1).last() == records@[i as int]);
                assert(extras@ =~= lines + glyphs(records@.take(i + 1), now, setup));
            }
            i = i + 1;
        }
        proof {
            assert(records@.take(i as int) =~= records@);
        }
        Ok(Scene { units, instances, extra_instances: extras })
    }

    /// Plans how a scene is drawn onto a surface.
    ///
    /// Where the image that was acquired for the frame has another size than
    /// the window, the frame is skipped and there is no plan. Otherwise both
    /// sets of instances are batched, the GUI items get their draws, and the
    /// steps of the frame are listed; the first of these that fails decides
    /// the error.
    pub fn inner_render<V: Copy, D: Copy>(
        &self,
        setup: &GameSetup,
        size: SurfaceSize,
        output_size: SurfaceSize,
        instances: &Vec<(InstanceData, Id)>,
        extra_instances: &Vec<(InstanceData, Id)>,
        gui_items: &Vec<GuiItem<V, D>>,
        overlay_vertices: usize,
        screenshot: bool,
    ) -> (plan: Result<Option<Plan<V, D>>, RenderError>)
        ensures
            output_size != size ==> plan matches Ok(None),
            output_size == size ==> match planned(
                setup.resource_man.index_ranges@,
                size,
                instances@,
                extra_instances@,
                gui_items@,
                overlay_vertices as nat,
                screenshot,
            ) {
                Ok(expected) => plan matches Ok(Some(made)) && made@ == expected,
                Err(expected) => plan matches Err(error) && error == expected,
            },
    {
        if output_size.width != size.width || output_size.height != size.height {
            return Ok(None);
        }
        let geometry = &setup.resource_man.index_ranges;
        let world = match batch(instances, geometry) {
            Ok(world) => world,
            Err(error) => {
                return Err(RenderError::World(error));
            },
        };
        let extra = match batch(extra_instances, geometry) {
            Ok(extra) => extra,
            Err(error) => {
                return Err(RenderError::Extra(error));
            },
        };
        let gui = match gui_draws(gui_items, size, geometry) {
            Ok(gui) => gui,
            Err(error) => {
                return Err(RenderError::Gui(error));
            },
        };
        if overlay_vertices > u32::MAX as usize {
            return Err(RenderError::TooManyOverlayVertices);
        }
        let viewport = match upscale_size(size) {
            Some(viewport) => viewport,
            None => {
                return Err(RenderError::SurfaceTooLarge);
            },
        };
        proof {
            lemma_model_order(instances@);
            lemma_model_order(extra_instances@);
        }
        let counts = FrameCounts {
            world_draws: world.draws.len() as u32,
            extra_draws: extra.draws.len() as u32,
            overlay_vertices: overlay_vertices as u32,
            gui_items: gui_items.len() as u32,
            screenshot,
        };
        let steps = plan_passes(counts);
        Ok(Some(Plan { world, extra, gui_draws: gui, viewport, steps }))
    }
}

/// A plan draws what it was given, no more and no less: each batch holds
/// the instances that were given for it, has one draw for every model among
/// them, and its pass issues a draw call exactly if there is an instance.
pub proof fn lemma_plan_draws_every_model_once<V, D>(
    geometry: Map<Id, IndexRange>,
    size: SurfaceSize,
    instances: Seq<(InstanceData, Id)>,
    extra_instances: Seq<(InstanceData, Id)>,
    gui_items: Seq<GuiItem<V, D>>,
    overlay_vertices: nat,
    screenshot: bool,
)
    requires
        planned(
            geometry,
            size,
            instances,
            extra_instances,
            gui_items,
            overlay_vertices,
            screenshot,
        ) is Ok,
    ensures
        ({
            let plan = planned(
                geometry,
                size,
                instances,
                extra_instances,
                gui_items,
                overlay_vertices,
                screenshot,
            )->Ok_0;
            &&& plan.world_instances.to_multiset() == instances.to_multiset()
            &&& plan.extra_instances.to_multiset() == extra_instances.to_multiset()
            &&& plan.world_draws.len() == models(instances).to_set().len()
            &&& plan.extra_draws.len() == models(extra_instances).to_set().len()
            &&& plan.steps[0].draws() <==> instances.len() > 0
            &&& plan.steps[1].draws() <==> extra_instances.len() > 0
            &&& plan.steps[3].draws() <==> overlay_vertices > 0
            &&& plan.steps[5].draws() <==> gui_items.len() > 0
        }),
{
    lemma_grouped_is_permutation(instances);
    lemma_grouped_is_permutation(extra_instances);
    lemma_model_order(instances);
    lemma_model_order(extra_instances);
    lemma_model_order_counts_models(instances);
    lemma_model_order_counts_models(extra_instances);
    if instances.len() > 0 {
        assert(instances[0].1 == instances[0].1);
        assert(crate::batch::model_order(instances).contains(instances[0].1));
    }
    if extra_instances.len() > 0 {
        assert(extra_instances[0].1 == extra_instances[0].1);
        assert(crate::batch::model_order(extra_instances).contains(extra_instances[0].1));
    }
}

} // verus!
