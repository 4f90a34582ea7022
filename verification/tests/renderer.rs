use automancy::animation::{AnimationSampler, TransactionRecord};
use automancy::batch::{BatchError, GeometryCache, IndexRange, IndirectDrawDescriptor};
use automancy::colors::{red, Rgba};
use automancy::coord::TileCoord;
use automancy::coord_map::CoordMap;
use automancy::data::{Data, DataMap};
use automancy::gui::{GuiError, GuiItem, SurfaceSize};
use automancy::id::{Id, IdMap};
use automancy::instance::{
    FractionalCoord, InstanceData, LightPos, Placement, RenderUnit, Transform,
};
use automancy::passes::{Draw, InstanceSet, Step};
use automancy::renderer::{
    frame_start, recover, surface_is_empty, Camera, FrameStart, GameSetup, Recovery, RenderError,
    Renderer, SurfaceFault,
};
use automancy::resources::{DataIds, Item, ModelIds, Registry, ResourceManager, Tile};
use automancy::translate::{Interner, Translate};

const NONE: Id = Id(100);
const MINER: Id = Id(101);
const CUBE: Id = Id(103);
const ORE: Id = Id(106);

type Item2 = GuiItem<u8, u8>;

fn setup(coord: TileCoord, culling_range: (i32, i32)) -> GameSetup {
    let mut tiles = IdMap::new();
    tiles.insert(Id(0), Tile { models: vec![NONE], data: DataMap::new() });
    tiles.insert(Id(1), Tile { models: vec![MINER], data: DataMap::new() });
    let mut items = IdMap::new();
    items.insert(Id(300), Item { model: ORE });
    let mut index_ranges = GeometryCache::new();
    for (at, model) in [NONE, MINER, Id(102), CUBE, Id(104), Id(105), ORE].into_iter().enumerate() {
        index_ranges.insert(model, IndexRange { offset: at as u32 * 10, size: 10 });
    }
    GameSetup {
        resource_man: ResourceManager {
            registry: Registry {
                none: Id(0),
                data_ids: DataIds { target: Id(200), link: Id(201), inactive_model: Id(202) },
                model_ids: ModelIds { cube1x1: CUBE, missing: Id(104), items_missing: Id(105) },
                tiles,
                items,
            },
            index_ranges,
            interner: Interner::new(),
            translates: Translate::default(),
        },
        camera: Camera { coord, culling_range },
        sampler: AnimationSampler::new(1000).unwrap(),
    }
}

fn size() -> SurfaceSize {
    SurfaceSize { width: 640, height: 480 }
}

#[test]
fn frame_is_skipped_for_a_surface_without_area() {
    let empty = SurfaceSize { width: 0, height: 480 };
    let flat = SurfaceSize { width: 640, height: 0 };
    assert!(surface_is_empty(empty));
    assert!(surface_is_empty(flat));
    assert!(!surface_is_empty(size()));
    assert_eq!(frame_start(empty, None), FrameStart::Skip);
    assert_eq!(frame_start(flat, Some(size())), FrameStart::Skip);
    assert_eq!(frame_start(size(), Some(empty)), FrameStart::Skip);
    assert_eq!(frame_start(size(), Some(flat)), FrameStart::Skip);
    assert_eq!(frame_start(size(), None), FrameStart::Draw { recreate: None });
    let new = SurfaceSize { width: 1, height: 1 };
    assert_eq!(frame_start(size(), Some(new)), FrameStart::Draw { recreate: Some(new) });
}

#[test]
fn camera_at_origin_over_an_empty_world_shows_four_none_units() {
    let setup = setup(TileCoord::new(0, 0), (2, 2));
    let mut renderer = Renderer::new();
    let scene = renderer
        .render(&setup, 0, CoordMap::new(), &CoordMap::new(), &vec![], vec![], &vec![])
        .unwrap();
    assert_eq!(scene.units.len(), 4);
    assert_eq!(scene.instances.len(), 4);
    assert!(scene.extra_instances.is_empty());
    let mut seen = Vec::new();
    for (instance, model) in &scene.instances {
        assert_eq!(*model, NONE);
        assert_eq!(instance.light_pos, LightPos::Camera);
        assert_eq!(instance.color_offset, Rgba { r: 0, g: 0, b: 0, a: 0 });
        assert_eq!(instance.model_matrix.turn, 0);
        match instance.model_matrix.base {
            Placement::Tile(coord) => seen.push((coord.q, coord.r)),
            other => panic!("not at a tile: {:?}", other),
        }
    }
    seen.sort();
    assert_eq!(seen, vec![(-1, -1), (-1, 0), (0, -1), (0, 0)]);
    for (q, r) in seen {
        let held = scene.units.get(TileCoord::new(q, r)).unwrap();
        assert_eq!((held.tile, held.model), (NONE, NONE));
    }
}

#[test]
fn scene_of_tiles_links_tints_and_transactions() {
    let setup = setup(TileCoord::new(0, 0), (4, 2));
    let at = TileCoord::new(1, 0);
    let far = TileCoord::new(9, 9);
    let placed = |coord| {
        InstanceData::default().with_model_matrix(Transform::placed(Placement::Tile(coord)))
    };
    let mut info = CoordMap::new();
    info.insert(at, RenderUnit { instance: placed(at), tile: Id(1), model: MINER });
    info.insert(far, RenderUnit { instance: placed(far), tile: Id(1), model: MINER });
    let mut held = DataMap::new();
    held.insert(Id(200), Data::Coord(TileCoord::bottom_left()));
    held.insert(Id(201), Data::Coord(far));
    let mut data = CoordMap::new();
    data.insert(at, held);
    let tints = vec![(TileCoord::new(-2, -1), red()), (at, red())];
    let given = (placed(TileCoord::new(3, 3)), CUBE);
    let records = vec![
        TransactionRecord {
            source_coord: at,
            dest_coord: TileCoord::new(1, 1),
            start_time: 4000,
            item: Id(300),
        },
        TransactionRecord {
            source_coord: at,
            dest_coord: TileCoord::new(1, 1),
            start_time: 1000,
            item: Id(300),
        },
        TransactionRecord { source_coord: far, dest_coord: at, start_time: 4750, item: Id(7) },
    ];
    let mut renderer = Renderer::new();
    let scene = renderer.render(&setup, 5000, data, &info, &tints, vec![given], &records).unwrap();

    assert_eq!(scene.units.len(), 9);
    assert_eq!(
        scene.units.get(at),
        Some(&RenderUnit {
            instance: InstanceData {
                color_offset: red(),
                light_pos: LightPos::Origin,
                model_matrix: Transform { base: Placement::Tile(at), turn: 180 },
            },
            tile: Id(1),
            model: MINER,
        })
    );
    assert_eq!(scene.units.get(far).unwrap().model, MINER);
    let corner = scene.units.get(TileCoord::new(-2, -1)).unwrap();
    assert_eq!((corner.model, corner.instance.color_offset), (NONE, red()));
    assert_eq!(scene.instances.len(), 9);
    assert_eq!(scene.instances[0].1, MINER);

    let glyph = |at, heading_q, heading_r| InstanceData {
        color_offset: Rgba { r: 0, g: 0, b: 0, a: 0 },
        light_pos: LightPos::Camera,
        model_matrix: Transform { base: Placement::Glyph { at, heading_q, heading_r }, turn: 0 },
    };
    assert_eq!(
        scene.extra_instances,
        vec![
            given,
            (
                InstanceData {
                    color_offset: red(),
                    light_pos: LightPos::Camera,
                    model_matrix: Transform {
                        base: Placement::Line { from: at, to: far },
                        turn: 0
                    },
                },
                CUBE
            ),
            (glyph(FractionalCoord { q_num: 1000, r_num: 1000, den: 1000 }, 0, 1), ORE),
            (glyph(FractionalCoord { q_num: 7000, r_num: 6750, den: 1000 }, -8, -9), Id(105)),
        ]
    );
}

#[test]
fn render_fails_without_a_none_tile_or_with_a_window_out_of_range() {
    let mut renderer = Renderer::new();
    let mut broken = setup(TileCoord::new(0, 0), (2, 2));
    broken.resource_man.registry.none = Id(9);
    let scene =
        renderer.render(&broken, 0, CoordMap::new(), &CoordMap::new(), &vec![], vec![], &vec![]);
    assert_eq!(scene.err(), Some(RenderError::NoneTileMissing));
    let edge = setup(TileCoord::new(i32::MIN, 0), (2, 2));
    let scene =
        renderer.render(&edge, 0, CoordMap::new(), &CoordMap::new(), &vec![], vec![], &vec![]);
    assert_eq!(scene.err(), Some(RenderError::WindowOutOfRange));
}

#[test]
fn renderer_forgets_the_last_update() {
    let mut renderer = Renderer::new();
    renderer.reset_last_tiles_update();
    let setup = setup(TileCoord::new(0, 0), (0, 0));
    let scene = renderer
        .render(&setup, 0, CoordMap::new(), &CoordMap::new(), &vec![], vec![], &vec![])
        .unwrap();
    assert_eq!(scene.units.len(), 0);
    assert!(scene.instances.is_empty());
}

#[test]
fn plan_is_skipped_for_an_image_of_another_size() {
    let setup = setup(TileCoord::new(0, 0), (2, 2));
    let renderer = Renderer::new();
    let other = SurfaceSize { width: 641, height: 480 };
    let items: Vec<Item2> = vec![];
    let plan = renderer.inner_render(&setup, size(), other, &vec![], &vec![], &items, 0, false);
    assert!(matches!(plan, Ok(None)));
    let other = SurfaceSize { width: 640, height: 479 };
    let plan = renderer.inner_render(&setup, size(), other, &vec![], &vec![], &items, 0, true);
    assert!(matches!(plan, Ok(None)));
}

#[test]
fn plan_of_an_empty_frame_draws_nothing_but_the_screen_passes() {
    let setup = setup(TileCoord::new(0, 0), (2, 2));
    let renderer = Renderer::new();
    let items: Vec<Item2> = vec![];
    let plan = renderer
        .inner_render(&setup, size(), size(), &vec![], &vec![], &items, 0, false)
        .unwrap()
        .unwrap();
    assert!(plan.world.instances.is_empty());
    assert!(plan.world.draws.is_empty());
    assert!(plan.extra.draws.is_empty());
    assert!(plan.gui_draws.is_empty());
    assert_eq!(plan.viewport, SurfaceSize { width: 1280, height: 960 });
    assert_eq!(plan.steps.len(), 10);
    for at in [0, 1, 3, 5] {
        match plan.steps[at] {
            Step::Render(pass) => assert_eq!(pass.draw, Draw::Skip),
            Step::Copy { .. } => panic!("a copy where a pass was expected"),
        }
    }
}

#[test]
fn plan_counts_the_draws_of_its_batches() {
    let setup = setup(TileCoord::new(0, 0), (2, 2));
    let renderer = Renderer::new();
    let plain = InstanceData::default();
    let instances = vec![(plain, NONE), (plain, MINER), (plain, NONE)];
    let extras = vec![(plain, CUBE)];
    let items: Vec<Item2> = vec![
        GuiItem { model: MINER, viewport: None, scissor: None, depth: None },
        GuiItem { model: CUBE, viewport: Some(1), scissor: None, depth: Some(2) },
    ];
    let plan = renderer
        .inner_render(&setup, size(), size(), &instances, &extras, &items, 12, true)
        .unwrap()
        .unwrap();
    assert_eq!(plan.world.instances, vec![(plain, NONE), (plain, NONE), (plain, MINER)]);
    assert_eq!(
        plan.world.draws,
        vec![
            IndirectDrawDescriptor {
                index_offset: 0,
                index_count: 10,
                instance_offset: 0,
                instance_count: 2
            },
            IndirectDrawDescriptor {
                index_offset: 10,
                index_count: 10,
                instance_offset: 2,
                instance_count: 1
            },
        ]
    );
    assert_eq!(plan.extra.draws.len(), 1);
    assert_eq!(plan.gui_draws.len(), 2);
    assert_eq!(plan.steps.len(), 12);
    let draws: Vec<Draw> = [0, 1, 3, 5]
        .into_iter()
        .map(|at| match plan.steps[at] {
            Step::Render(pass) => pass.draw,
            Step::Copy { .. } => panic!("a copy where a pass was expected"),
        })
        .collect();
    assert_eq!(
        draws,
        vec![
            Draw::Indirect { set: InstanceSet::World, count: 2 },
            Draw::Indirect { set: InstanceSet::Extra, count: 1 },
            Draw::Vertices { count: 12 },
            Draw::GuiItems { count: 2 },
        ]
    );
}

#[test]
fn plan_fails_with_the_first_thing_that_is_wrong() {
    let setup = setup(TileCoord::new(0, 0), (2, 2));
    let renderer = Renderer::new();
    let plain = InstanceData::default();
    let known = vec![(plain, NONE)];
    let unknown = vec![(plain, Id(999))];
    let items: Vec<Item2> = vec![GuiItem { model: Id(998), viewport: None, scissor: None, depth: None }];
    let none: Vec<Item2> = vec![];
    let plan = |instances, extras, items, size: SurfaceSize| {
        renderer.inner_render(&setup, size, size, instances, extras, items, 0, false).err()
    };
    assert_eq!(
        plan(&unknown, &unknown, &items, size()),
        Some(RenderError::World(BatchError::UnknownModel(Id(999))))
    );
    assert_eq!(
        plan(&known, &unknown, &items, size()),
        Some(RenderError::Extra(BatchError::UnknownModel(Id(999))))
    );
    assert_eq!(
        plan(&known, &known, &items, size()),
        Some(RenderError::Gui(GuiError::UnknownModel(Id(998))))
    );
    let wide = SurfaceSize { width: u32::MAX, height: 1 };
    assert_eq!(plan(&known, &known, &none, wide), Some(RenderError::SurfaceTooLarge));
    assert_eq!(plan(&known, &known, &none, size()), None);
}

#[test]
fn plan_fails_for_an_overlay_beyond_32_bits() {
    if usize::BITS <= 32 {
        return;
    }
    let setup = setup(TileCoord::new(0, 0), (2, 2));
    let renderer = Renderer::new();
    let items: Vec<Item2> = vec![];
    let vertices = u32::MAX as usize + 1;
    let plan =
        renderer.inner_render(&setup, size(), size(), &vec![], &vec![], &items, vertices, false);
    assert_eq!(plan.err(), Some(RenderError::TooManyOverlayVertices));
    let plan = renderer
        .inner_render(&setup, size(), size(), &vec![], &vec![], &items, vertices - 1, false)
        .unwrap()
        .unwrap();
    match plan.steps[3] {
        Step::Render(pass) => assert_eq!(pass.draw, Draw::Vertices { count: u32::MAX }),
        Step::Copy { .. } => panic!("a copy where a pass was expected"),
    }
}

#[test]
fn only_exhausted_memory_is_fatal() {
    assert_eq!(recover(SurfaceFault::Timeout), Recovery::SkipFrame);
    assert_eq!(recover(SurfaceFault::Outdated), Recovery::RecreateSurface);
    assert_eq!(recover(SurfaceFault::Lost), Recovery::RecreateSurface);
    assert_eq!(recover(SurfaceFault::OutOfMemory), Recovery::Abort);
}
