//! The tiles of a frame: what the simulation shows, turned and replaced as
//! its data says, with every gap in view filled and every tint applied.

use crate::colors::{red, Rgba};
use crate::coord::{TileCoord, TileUnit};
use crate::coord_map::CoordMap;
use crate::data::{Data, DataMap};
use crate::id::{lookup, Id};
use crate::instance::{InstanceData, LightPos, Placement, RenderUnit, Transform, normalized_degrees};
use crate::resources::ResourceManager;
use vstd::prelude::*;

verus! {

/// The turn in degrees of a tile that faces the neighbour `target`.
pub open spec fn angle_of(target: Data) -> Option<i32> {
    match target {
        Data::Coord(coord) => if coord == (TileCoord { q: 0, r: 1 }) {
            Some(0i32)
        } else if coord == (TileCoord { q: 1, r: 0 }) {
            Some(-60i32)
        } else if coord == (TileCoord { q: 1, r: -1i32 }) {
            Some(-120i32)
        } else if coord == (TileCoord { q: 0, r: -1i32 }) {
            Some(-180i32)
        } else if coord == (TileCoord { q: -1i32, r: 0 }) {
            Some(-240i32)
        } else if coord == (TileCoord { q: -1i32, r: 1 }) {
            Some(-300i32)
        } else {
            None
        },
        _ => None,
    }
}

/// The turn in degrees of a tile whose data names the neighbour that it
/// faces: none for the neighbour above and to the right, and sixty degrees
/// clockwise more for each neighbour further round. Data that is no
/// coordinate, or no neighbour, gives no turn.
pub fn get_angle_from_direction(target: &Data) -> (angle: Option<i32>)
    ensures
        angle == angle_of(*target),
{
    match target.as_coord() {
        Some(coord) => {
            if coord == TileCoord::top_right() {
                Some(0)
            } else if coord == TileCoord::right() {
                Some(-60)
            } else if coord == TileCoord::bottom_right() {
                Some(-120)
            } else if coord == TileCoord::bottom_left() {
                Some(-180)
            } else if coord == TileCoord::left() {
                Some(-240)
            } else if coord == TileCoord::top_left() {
                Some(-300)
            } else {
                None
            }
        },
        None => None,
    }
}

/// The rectangle of coordinates that a frame shows: `q0 <= q < q1` and
/// `r0 <= r < r1`.
#[derive(Clone, Copy, Debug, PartialEq, Eq, Structural)]
pub struct CullingWindow {
    pub q0: TileUnit,
    pub q1: TileUnit,
    pub r0: TileUnit,
    pub r1: TileUnit,
}

/// Half of `x`, rounded towards zero.
pub open spec fn half(x: int) -> int {
    if x >= 0 {
        x / 2
    } else {
        -((-x) / 2)
    }
}

impl CullingWindow {
    pub open spec fn contains(self, coord: TileCoord) -> bool {
        self.q0 <= coord.q < self.q1 && self.r0 <= coord.r < self.r1
    }

    /// Computes [`CullingWindow::contains`].
    pub fn includes(&self, coord: TileCoord) -> (inside: bool)
        ensures
            inside == self.contains(coord),
    {
        self.q0 <= coord.q && coord.q < self.q1 && self.r0 <= coord.r && coord.r < self.r1
    }

    /// The window of `range` coordinates along each axis with `center` in its
    /// middle, where its bounds are coordinates.
    pub open spec fn around(center: TileCoord, range: (TileUnit, TileUnit)) -> Option<
        CullingWindow,
    > {
        let q0 = center.q - half(range.0 as int);
        let q1 = center.q + half(range.0 as int);
        let r0 = center.r - half(range.1 as int);
        let r1 = center.r + half(range.1 as int);
        if i32::MIN <= q0 <= i32::MAX && i32::MIN <= q1 <= i32::MAX && i32::MIN <= r0 <= i32::MAX
            && i32::MIN <= r1 <= i32::MAX {
            Some(CullingWindow { q0: q0 as i32, q1: q1 as i32, r0: r0 as i32, r1: r1 as i32 })
        } else {
            None
        }
    }

    /// Computes [`CullingWindow::around`].
    pub fn new(center: TileCoord, range: (TileUnit, TileUnit)) -> (window: Option<CullingWindow>)
        ensures
            window == Self::around(center, range),
    {
        let half_q: i64 = half_of(range.0);
        let half_r: i64 = half_of(range.1);
        let q0: i64 = center.q as i64 - half_q;
        let q1: i64 = center.q as i64 + half_q;
        let r0: i64 = center.r as i64 - half_r;
        let r1: i64 = center.r as i64 + half_r;
        if fits(q0) && fits(q1) && fits(r0) && fits(r1) {
            Some(CullingWindow { q0: q0 as i32, q1: q1 as i32, r0: r0 as i32, r1: r1 as i32 })
        } else {
            None
        }
    }
}

fn half_of(x: i32) -> (h: i64)
    ensures
        h == half(x as int),
{
    if x >= 0 {
        (x / 2) as i64
    } else {
        let positive: i64 = -(x as i64);
        -(positive / 2)
    }
}

fn fits(x: i64) -> (fits: bool)
    ensures
        fits <==> i32::MIN <= x <= i32::MAX,
{
    -0x8000_0000 <= x && x <= 0x7fff_ffff
}

/// The turn that the data at `coord` asks for.
pub open spec fn facing(data: Map<TileCoord, DataMap>, coord: TileCoord, key: Id) -> Option<i32> {
    match lookup(data, coord) {
        Some(held) => match lookup(held@, key) {
            Some(target) => angle_of(target),
            None => None,
        },
        None => None,
    }
}

/// The coordinate that the data at `coord` links to.
pub open spec fn linked(data: Map<TileCoord, DataMap>, coord: TileCoord, key: Id) -> Option<
    TileCoord,
> {
    match lookup(data, coord) {
        Some(held) => match lookup(held@, key) {
            Some(target) => target.coord(),
            None => None,
        },
        None => None,
    }
}

/// A unit as its tile's data has it: turned the way the tile faces; or,
/// where the tile faces no way and its kind has a model for the inactive
/// state, drawn with that model.
pub open spec fn augmented(
    unit: RenderUnit,
    coord: TileCoord,
    data: Map<TileCoord, DataMap>,
    resources: &ResourceManager,
) -> RenderUnit {
    match facing(data, coord, resources.registry.data_ids.target) {
        Some(theta) => RenderUnit {
            instance: InstanceData {
                model_matrix: Transform {
                    base: unit.instance.model_matrix.base,
                    turn: normalized_degrees(unit.instance.model_matrix.turn + theta) as u16,
                },
                ..unit.instance
            },
            ..unit
        },
        None => match resources.registry.tile_data_of(
            unit.tile,
            resources.registry.data_ids.inactive_model,
        ) {
            Some(Data::Id(inactive)) => RenderUnit { model: resources.model_of(inactive), ..unit },
            _ => unit,
        },
    }
}

/// The unit that stands where the simulation has no tile.
pub open spec fn none_unit(coord: TileCoord, none: Id) -> RenderUnit {
    RenderUnit {
        instance: InstanceData {
            model_matrix: Transform { base: Placement::Tile(coord), turn: 0 },
            ..InstanceData::plain()
        },
        tile: none,
        model: none,
    }
}

/// The line that shows the link from `coord` to `link`.
pub open spec fn link_line(coord: TileCoord, link: TileCoord) -> InstanceData {
    InstanceData {
        color_offset: Rgba { r: 0xff, g: 0, b: 0, a: 0xff },
        light_pos: LightPos::Camera,
        model_matrix: Transform { base: Placement::Line { from: coord, to: link }, turn: 0 },
    }
}

/// The lines of all links among the entries, in the entries' order.
pub open spec fn link_lines(
    entries: Seq<(TileCoord, RenderUnit)>,
    data: Map<TileCoord, DataMap>,
    resources: &ResourceManager,
) -> Seq<(InstanceData, Id)>
    decreases entries.len(),
{
    if entries.len() == 0 {
        Seq::empty()
    } else {
        let before = link_lines(entries.drop_last(), data, resources);
        match linked(data, entries.last().0, resources.registry.data_ids.link) {
            Some(link) => before.push(
                (link_line(entries.last().0, link), resources.registry.model_ids.cube1x1),
            ),
            None => before,
        }
    }
}

/// The tint that `tints` gives to `coord`: the last one listed for it.
pub open spec fn tint_of(tints: Seq<(TileCoord, Rgba)>, coord: TileCoord) -> Option<Rgba>
    decreases tints.len(),
{
    if tints.len() == 0 {
        None
    } else if tints.last().0 == coord {
        Some(tints.last().1)
    } else {
        tint_of(tints.drop_last(), coord)
    }
}

/// A unit under a tint: the tint becomes its color offset.
pub open spec fn tinted(unit: RenderUnit, tint: Option<Rgba>) -> RenderUnit {
    match tint {
        Some(color) => RenderUnit {
            instance: InstanceData { color_offset: color, ..unit.instance },
            ..unit
        },
        None => unit,
    }
}

/// The units of the simulation, each as its tile's data has it.
pub open spec fn augmented_units(
    info: Map<TileCoord, RenderUnit>,
    data: Map<TileCoord, DataMap>,
    resources: &ResourceManager,
) -> Map<TileCoord, RenderUnit> {
    Map::new(
        |coord: TileCoord| info.contains_key(coord),
        |coord: TileCoord| augmented(info[coord], coord, data, resources),
    )
}

/// The units with every gap in the window filled by the unit of no tile.
pub open spec fn filled_units(
    units: Map<TileCoord, RenderUnit>,
    window: CullingWindow,
    none: Id,
) -> Map<TileCoord, RenderUnit> {
    Map::new(
        |coord: TileCoord| units.contains_key(coord) || window.contains(coord),
        |coord: TileCoord|
            if units.contains_key(coord) {
                units[coord]
            } else {
                none_unit(coord, none)
            },
    )
}

/// The units under their tints.
pub open spec fn tinted_units(
    units: Map<TileCoord, RenderUnit>,
    tints: Seq<(TileCoord, Rgba)>,
) -> Map<TileCoord, RenderUnit> {
    Map::new(
        |coord: TileCoord| units.contains_key(coord),
        |coord: TileCoord| tinted(units[coord], tint_of(tints, coord)),
    )
}

/// What a frame shows at every coordinate: the simulation's unit as its
/// tile's data has it, or the unit of no tile where the window has a gap,
/// under the tint of the coordinate.
pub open spec fn visible_units(
    info: Map<TileCoord, RenderUnit>,
    data: Map<TileCoord, DataMap>,
    resources: &ResourceManager,
    window: CullingWindow,
    none: Id,
    tints: Seq<(TileCoord, Rgba)>,
) -> Map<TileCoord, RenderUnit> {
    tinted_units(filled_units(augmented_units(info, data, resources), window, none), tints)
}

/// The instances of the units, lit from the camera, each with its model.
pub open spec fn unit_instances(entries: Seq<(TileCoord, RenderUnit)>) -> Seq<(InstanceData, Id)> {
    entries.map_values(
        |entry: (TileCoord, RenderUnit)|
            (InstanceData { light_pos: LightPos::Camera, ..entry.1.instance }, entry.1.model),
    )
}

/// The units of the simulation that stand before place `i` of the walk,
/// each as its tile's data has it.
spec fn augmented_before(
    info: &CoordMap<RenderUnit>,
    data: Map<TileCoord, DataMap>,
    resources: &ResourceManager,
    i: int,
) -> Map<TileCoord, RenderUnit> {
    Map::new(
        |coord: TileCoord| info@.contains_key(coord) && info.position(coord) < i,
        |coord: TileCoord| augmented(info@[coord], coord, data, resources),
    )
}

/// Turns and replaces the units of the simulation as the data of their tiles
/// says, and adds a line to `extras` for every tile that is linked to a
/// coordinate.
pub fn augment(
    info: &CoordMap<RenderUnit>,
    data: &CoordMap<DataMap>,
    resources: &ResourceManager,
    extras: &mut Vec<(InstanceData, Id)>,
) -> (units: CoordMap<RenderUnit>)
    requires
        info.wf(),
        data.wf(),
    ensures
        units.wf(),
        units@ == augmented_units(info@, data@, resources),
        final(extras)@ == old(extras)@ + link_lines(info.entries(), data@, resources),
{
    let mut units: CoordMap<RenderUnit> = CoordMap::new();
    let mut i: usize = 0;
    proof {
        info.lemma_entries();
        assert(info.entries().take(0) =~= Seq::<(TileCoord, RenderUnit)>::empty());
        assert(extras@ =~= old(extras)@ + link_lines(info.entries().take(0), data@, resources));
        assert(units@ =~= augmented_before(info, data@, resources, 0));
    }
    while i < info.len()
        invariant
            info.wf(),
            data.wf(),
            units.wf(),
            i <= info.entries().len(),
            units@ == augmented_before(info, data@, resources, i as int),
            extras@ == old(extras)@ + link_lines(info.entries().take(i as int), data@, resources),
        decreases info.entries().len() - i,
    {
        let (coord, unit) = info.entry(i);
        let held = data.get(coord);
        proof {
            info.lemma_entries();
        }
        let theta = match held {
            Some(held) => match held.get(resources.registry.data_ids.target) {
                Some(target) => get_angle_from_direction(target),
                None => None,
            },
            None => None,
        };
        let shown = match theta {
            Some(theta) => RenderUnit {
                instance: unit.instance.with_model_matrix(
                    unit.instance.model_matrix.turned(theta),
                ),
                tile: unit.tile,
                model: unit.model,
            },
            None => match resources.registry.tile_data(
                unit.tile,
                resources.registry.data_ids.inactive_model,
            ) {
                Some(Data::Id(inactive)) => RenderUnit {
                    instance: unit.instance,
                    tile: unit.tile,
                    model: resources.get_model(inactive),
                },
                _ => *unit,
            },
        };
        assert(shown == augmented(*unit, coord, data@, resources));
        let link = match held {
            Some(held) => match held.get(resources.registry.data_ids.link) {
                Some(target) => target.as_coord(),
                None => None,
            },
            None => None,
        };
        match link {
            Some(link) => {
                extras.push(
                    (
                        InstanceData {
                            color_offset: red(),
                            light_pos: LightPos::Camera,
                            model_matrix: Transform::placed(
                                Placement::Line { from: coord, to: link },
                            ),
                        },
                        resources.registry.model_ids.cube1x1,
                    ),
                );
            },
            None => {},
        }
        units.insert(coord, shown);
        proof {
            let entries = info.entries();
            assert(entries.take(i + 1).drop_last() =~= entries.take(i as int));
            assert(entries.take(i + 1).last() == entries[i as int]);
            assert(extras@ =~= old(extras)@ + link_lines(entries.take(i + 1), data@, resources));
            assert(units@ =~= augmented_before(info, data@, resources, i + 1));
        }
        i = i + 1;
    }
    proof {
        info.lemma_entries();
        assert(info.entries().take(i as int) =~= info.entries());
        assert(units@ =~= augmented_units(info@, data@, resources));
    }
    units
}

/// The units when the gaps of the window are filled as far as the walk has
/// come: through all columns before `q`, and in column `q` through all rows
/// before `r`.
spec fn filled_before(
    units: Map<TileCoord, RenderUnit>,
    window: CullingWindow,
    none: Id,
    q: int,
    r: int,
) -> Map<TileCoord, RenderUnit> {
    Map::new(
        |c: TileCoord|
            units.contains_key(c) || (window.contains(c) && (c.q < q || (c.q == q && c.r < r))),
        |c: TileCoord|
            if units.contains_key(c) {
                units[c]
            } else {
                none_unit(c, none)
            },
    )
}

/// Puts the unit of no tile at every coordinate of the window where there
/// is no unit yet, so that none is left without one.
pub fn fill_gaps(units: &mut CoordMap<RenderUnit>, window: CullingWindow, none: Id)
    requires
        old(units).wf(),
    ensures
        final(units).wf(),
        final(units)@ == filled_units(old(units)@, window, none),
{
    let mut q: TileUnit = window.q0;
    proof {
        assert(units@ =~= filled_before(old(units)@, window, none, q as int, window.r0 as int));
    }
    while q < window.q1
        invariant
            units.wf(),
            window.q0 <= q,
            units@ == filled_before(old(units)@, window, none, q as int, window.r0 as int),
        decreases window.q1 - q,
    {
        let mut r: TileUnit = window.r0;
        while r < window.r1
            invariant
                units.wf(),
                window.q0 <= q < window.q1,
                window.r0 <= r,
                units@ == filled_before(old(units)@, window, none, q as int, r as int),
            decreases window.r1 - r,
        {
            let coord = TileCoord::new(q, r);
            if !units.contains_key(coord) {
                units.insert(
                    coord,
                    RenderUnit {
                        instance: InstanceData::default().with_model_matrix(
                            Transform::placed(Placement::Tile(coord)),
                        ),
                        tile: none,
                        model: none,
                    },
                );
            }
            proof {
                assert(units@ =~= filled_before(old(units)@, window, none, q as int, r + 1));
            }
            r = r + 1;
        }
        proof {
            assert(units@ =~= filled_before(old(units)@, window, none, q + 1, window.r0 as int));
        }
        q = q + 1;
    }
    proof {
        assert(units@ =~= filled_units(old(units)@, window, none));
    }
}

/// Gives the unit at every tinted coordinate its tint as color offset. A
/// tint for a coordinate without a unit is passed over.
pub fn apply_tints(units: &mut CoordMap<RenderUnit>, tints: &Vec<(TileCoord, Rgba)>)
    requires
        old(units).wf(),
    ensures
        final(units).wf(),
        final(units)@ == tinted_units(old(units)@, tints@),
{
    let mut i: usize = 0;
    proof {
        assert(tints@.take(0) =~= Seq::<(TileCoord, Rgba)>::empty());
        assert(units@ =~= tinted_units(old(units)@, tints@.take(0)));
    }
    while i < tints.len()
        invariant
            units.wf(),
            i <= tints@.len(),
            units@ == tinted_units(old(units)@, tints@.take(i as int)),
        decreases tints@.len() - i,
    {
        let (coord, color) = tints[i];
        let tinted = match units.get(coord) {
            Some(unit) => Some(
                RenderUnit {
                    instance: unit.instance.with_color_offset(color),
                    tile: unit.tile,
                    model: unit.model,
                },
            ),
            None => None,
        };
        match tinted {
            Some(tinted) => {
                units.insert(coord, tinted);
            },
            None => {},
        }
        proof {
            assert(tints@.take(i + 1).drop_last() =~= tints@.take(i as int));
            assert(tints@.take(i + 1).last() == tints@[i as int]);
            assert(units@ =~= tinted_units(old(units)@, tints@.take(i + 1)));
        }
        i = i + 1;
    }
    proof {
        assert(tints@.take(i as int) =~= tints@);
    }
}

/// The instances of the units in the order of the walk, lit from the camera.
pub fn collect_instances(units: &CoordMap<RenderUnit>) -> (instances: Vec<(InstanceData, Id)>)
    requires
        units.wf(),
    ensures
        instances@ == unit_instances(units.entries()),
{
    let mut instances: Vec<(InstanceData, Id)> = Vec::new();
    let mut i: usize = 0;
    while i < units.len()
        invariant
            units.wf(),
            i <= units.entries().len(),
            instances@ == unit_instances(units.entries()).take(i as int),
        decreases units.entries().len() - i,
    {
        let (_, unit) = units.entry(i);
        instances.push((unit.instance.with_light_pos(LightPos::Camera), unit.model));
        proof {
            assert(instances@ =~= unit_instances(units.entries()).take(i + 1));
        }
        i = i + 1;
    }
    proof {
        assert(instances@ =~= unit_instances(units.entries()));
    }
    instances
}

/// The coordinates within `range` steps of `center`, which form a hexagon.
#[derive(Clone, Copy, Debug, PartialEq, Eq, Structural)]
pub struct HexRange {
    pub center: TileCoord,
    pub range: TileUnit,
}

/// How far the renderer fills the world around the camera where it shows a
/// hexagon of tiles.
pub const RENDER_RANGE: TileUnit = 64;

impl HexRange {
    /// Whether `coord` is at most `range` steps from the center.
    pub open spec fn contains(self, coord: TileCoord) -> bool {
        let dq = coord.q - self.center.q;
        let dr = coord.r - self.center.r;
        &&& -self.range <= dq <= self.range
        &&& -self.range <= dr <= self.range
        &&& -self.range <= dq + dr <= self.range
    }

    /// The range is not negative, and every coordinate of the hexagon exists.
    pub open spec fn wf(self) -> bool {
        &&& 0 <= self.range
        &&& i32::MIN <= self.center.q - self.range
        &&& self.center.q + self.range <= i32::MAX
        &&& i32::MIN <= self.center.r - self.range
        &&& self.center.r + self.range <= i32::MAX
    }

    /// The hexagon of `range` steps around `center`, where all of it exists.
    pub fn new(center: TileCoord, range: TileUnit) -> (hexagon: Option<HexRange>)
        ensures
            hexagon == (if (HexRange { center, range }).wf() {
                Some(HexRange { center, range })
            } else {
                None
            }),
    {
        if range >= 0 && center.q >= i32::MIN + range && center.q <= i32::MAX - range && center.r
            >= i32::MIN + range && center.r <= i32::MAX - range {
            Some(HexRange { center, range })
        } else {
            None
        }
    }
}

/// The units with every gap in the hexagon filled by the unit of no tile.
pub open spec fn hex_filled_units(
    units: Map<TileCoord, RenderUnit>,
    hexagon: HexRange,
    none: Id,
) -> Map<TileCoord, RenderUnit> {
    Map::new(
        |coord: TileCoord| units.contains_key(coord) || hexagon.contains(coord),
        |coord: TileCoord|
            if units.contains_key(coord) {
                units[coord]
            } else {
                none_unit(coord, none)
            },
    )
}

/// The units when the gaps of the hexagon are filled as far as the walk has
/// come: through all columns less than `dq` steps from the center, and in
/// the column at `dq` steps through all rows less than `dr` steps from it.
spec fn hex_filled_before(
    units: Map<TileCoord, RenderUnit>,
    hexagon: HexRange,
    none: Id,
    dq: int,
    dr: int,
) -> Map<TileCoord, RenderUnit> {
    Map::new(
        |c: TileCoord|
            units.contains_key(c) || (hexagon.contains(c) && (c.q - hexagon.center.q < dq || (c.q
                - hexagon.center.q == dq && c.r - hexagon.center.r < dr))),
        |c: TileCoord|
            if units.contains_key(c) {
                units[c]
            } else {
                none_unit(c, none)
            },
    )
}

/// The least step along `r` that the hexagon holds at the step `dq` along `q`.
spec fn hex_low(range: int, dq: int) -> int {
    if dq < 0 {
        -dq - range
    } else {
        -range
    }
}

/// The greatest step along `r` that the hexagon holds at the step `dq` along `q`.
spec fn hex_high(range: int, dq: int) -> int {
    if dq > 0 {
        -dq + range
    } else {
        range
    }
}

/// Puts the unit of no tile at every coordinate of the hexagon where there
/// is no unit yet.
pub fn fill_hex_gaps(units: &mut CoordMap<RenderUnit>, hexagon: HexRange, none: Id)
    requires
        old(units).wf(),
        hexagon.wf(),
    ensures
        final(units).wf(),
        final(units)@ == hex_filled_units(old(units)@, hexagon, none),
{
    let range: i64 = hexagon.range as i64;
    let mut dq: i64 = -range;
    proof {
        assert(units@ =~= hex_filled_before(
            old(units)@,
            hexagon,
            none,
            dq as int,
            hex_low(range as int, dq as int),
        ));
    }
    while dq <= range
        invariant
            units.wf(),
            hexagon.wf(),
            range == hexagon.range,
            -range <= dq <= range + 1,
            units@ == hex_filled_before(
                old(units)@,
                hexagon,
                none,
                dq as int,
                hex_low(range as int, dq as int),
            ),
        decreases range + 1 - dq,
    {
        let low: i64 = if dq < 0 {
            -dq - range
        } else {
            -range
        };
        let high: i64 = if dq > 0 {
            -dq + range
        } else {
            range
        };
        let mut dr: i64 = low;
        while dr <= high
            invariant
                units.wf(),
                hexagon.wf(),
                range == hexagon.range,
                -range <= dq <= range,
                low == hex_low(range as int, dq as int),
                high == hex_high(range as int, dq as int),
                low <= dr <= high + 1,
                units@ == hex_filled_before(old(units)@, hexagon, none, dq as int, dr as int),
            decreases high + 1 - dr,
        {
            let coord = TileCoord::new(
                (hexagon.center.q as i64 + dq) as i32,
                (hexagon.center.r as i64 + dr) as i32,
            );
            if !units.contains_key(coord) {
                units.insert(
                    coord,
                    RenderUnit {
                        instance: InstanceData::default().with_model_matrix(
                            Transform::placed(Placement::Tile(coord)),
                        ),
                        tile: none,
                        model: none,
                    },
                );
            }
            proof {
                assert(hexagon.contains(coord));
                assert(units@ =~= hex_filled_before(old(units)@, hexagon, none, dq as int, dr + 1));
            }
            dr = dr + 1;
        }
        proof {
            assert(units@ =~= hex_filled_before(
                old(units)@,
                hexagon,
                none,
                dq + 1,
                hex_low(range as int, dq + 1),
            ));
        }
        dq = dq + 1;
    }
    proof {
        assert(units@ =~= hex_filled_units(old(units)@, hexagon, none));
    }
}

/// After the gaps are filled, every coordinate of the window has a unit:
/// the one that was there, or the unit of no tile.
pub proof fn lemma_window_is_filled(
    units: Map<TileCoord, RenderUnit>,
    window: CullingWindow,
    none: Id,
    coord: TileCoord,
)
    requires
        window.contains(coord),
    ensures
        filled_units(units, window, none).contains_key(coord),
        units.contains_key(coord) ==> filled_units(units, window, none)[coord] == units[coord],
        !units.contains_key(coord) ==> filled_units(units, window, none)[coord] == none_unit(
            coord,
            none,
        ),
{
}

/// A frame shows a unit at every coordinate of the culling window: the
/// simulation's own, as the data of its tile has it, or the unit of no tile;
/// either under the tint of the coordinate.
pub proof fn lemma_every_coordinate_in_view_is_shown(
    info: Map<TileCoord, RenderUnit>,
    data: Map<TileCoord, DataMap>,
    resources: &ResourceManager,
    window: CullingWindow,
    none: Id,
    tints: Seq<(TileCoord, Rgba)>,
    coord: TileCoord,
)
    requires
        window.contains(coord),
    ensures
        visible_units(info, data, resources, window, none, tints).contains_key(coord),
        visible_units(info, data, resources, window, none, tints)[coord] == tinted(
            if info.contains_key(coord) {
                augmented(info[coord], coord, data, resources)
            } else {
                none_unit(coord, none)
            },
            tint_of(tints, coord),
        ),
{
}

/// The test for an entry whose tile is linked to a coordinate.
pub open spec fn is_linked(data: Map<TileCoord, DataMap>, key: Id) -> spec_fn(
    (TileCoord, RenderUnit),
) -> bool {
    |entry: (TileCoord, RenderUnit)| linked(data, entry.0, key) is Some
}

/// Every tile that is linked to a coordinate gets one line, from itself to
/// that coordinate, and no other tile gets one.
pub proof fn lemma_one_line_per_link(
    entries: Seq<(TileCoord, RenderUnit)>,
    data: Map<TileCoord, DataMap>,
    resources: &ResourceManager,
)
    ensures
        link_lines(entries, data, resources) == entries.filter(
            is_linked(data, resources.registry.data_ids.link),
        ).map_values(
            |entry: (TileCoord, RenderUnit)|
                (
                    link_line(
                        entry.0,
                        linked(data, entry.0, resources.registry.data_ids.link)->0,
                    ),
                    resources.registry.model_ids.cube1x1,
                ),
        ),
    decreases entries.len(),
{
    let key = resources.registry.data_ids.link;
    let line = |entry: (TileCoord, RenderUnit)|
        (link_line(entry.0, linked(data, entry.0, key)->0), resources.registry.model_ids.cube1x1);
    if entries.len() == 0 {
        entries.lemma_filter_len(is_linked(data, key));
        assert(entries.filter(is_linked(data, key)).map_values(line) =~= Seq::empty());
    } else {
        let rest = entries.drop_last();
        let last = entries.last();
        lemma_one_line_per_link(rest, data, resources);
        assert(entries =~= rest.push(last));
        rest.lemma_filter_push(last, is_linked(data, key));
        if linked(data, last.0, key) is Some {
            assert(rest.filter(is_linked(data, key)).push(last).map_values(line) =~= rest.filter(
                is_linked(data, key),
            ).map_values(line).push(line(last)));
        }
    }
}

} // verus!
