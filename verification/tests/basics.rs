use automancy::colors::{
    black, dark_gray, gray, light_blue, light_gray, orange, red, transparent, white, Rgba,
    WithAlpha,
};
use automancy::coord::TileCoord;
use automancy::coord_map::CoordMap;
use automancy::data::{Data, DataMap};
use automancy::id::Id;
use automancy::instance::{InstanceData, LightPos, Placement, Transform};

#[test]
fn named_colors() {
    assert_eq!(red().to_array(), [0xff, 0x00, 0x00, 0xff]);
    assert_eq!(orange().to_array(), [0xff, 0xa1, 0x60, 0xff]);
    assert_eq!(light_blue().to_array(), [0xc2, 0xff, 0xfe, 0xff]);
    assert_eq!(white().to_array(), [0xff, 0xff, 0xff, 0xff]);
    assert_eq!(light_gray().to_array(), [0xb6, 0xb6, 0xb6, 0xff]);
    assert_eq!(gray().to_array(), [0x74, 0x74, 0x74, 0xff]);
    assert_eq!(dark_gray().to_array(), [0x47, 0x47, 0x47, 0xff]);
    assert_eq!(black().to_array(), [0x00, 0x00, 0x00, 0xff]);
    assert_eq!(transparent().to_array(), [0x00, 0x00, 0x00, 0x00]);
}

#[test]
fn with_alpha_replaces_alpha_only() {
    assert_eq!(orange().with_alpha(0x80), Rgba { r: 0xff, g: 0xa1, b: 0x60, a: 0x80 });
    assert_eq!(transparent().with_alpha(0xff), black());
    assert_eq!(white().with_alpha(0).with_alpha(0xff), white());
    assert_eq!(Rgba::from_rgb(1, 2, 3), Rgba::from_rgba(1, 2, 3, 0xff));
}

#[test]
fn coordinates_and_their_keys() {
    let coord = TileCoord::new(-3, 7);
    assert_eq!((coord.q(), coord.r()), (-3, 7));
    assert_eq!(TileCoord::zero().to_key(), 0x8000_0000_8000_0000);
    assert_eq!(TileCoord::new(i32::MIN, i32::MIN).to_key(), 0);
    assert_eq!(TileCoord::new(i32::MAX, i32::MAX).to_key(), u64::MAX);
    assert_eq!(TileCoord::new(-1, 1).to_key(), 0x7fff_ffff_8000_0001);
    assert!(TileCoord::new(0, 5) < TileCoord::new(1, -5));
    assert!(TileCoord::new(0, 5).to_key() < TileCoord::new(1, -5).to_key());
    assert!(TileCoord::new(2, -1) < TileCoord::new(2, 0));
    assert!(TileCoord::new(2, -1).to_key() < TileCoord::new(2, 0).to_key());
}

#[test]
fn neighbours_go_round_clockwise() {
    let round = [
        TileCoord::top_right(),
        TileCoord::right(),
        TileCoord::bottom_right(),
        TileCoord::bottom_left(),
        TileCoord::left(),
        TileCoord::top_left(),
    ];
    let expected = [(0, 1), (1, 0), (1, -1), (0, -1), (-1, 0), (-1, 1)];
    for (coord, (q, r)) in round.iter().zip(expected) {
        assert_eq!(*coord, TileCoord::new(q, r));
    }
    for at in 0..6 {
        let opposite = round[(at + 3) % 6];
        assert_eq!((round[at].q + opposite.q, round[at].r + opposite.r), (0, 0));
    }
}

#[test]
fn coord_map_remembers_the_order_of_first_insertion() {
    let mut map = CoordMap::new();
    assert_eq!(map.len(), 0);
    map.insert(TileCoord::new(5, 5), 'a');
    map.insert(TileCoord::new(-1, 0), 'b');
    map.insert(TileCoord::new(0, -1), 'c');
    map.insert(TileCoord::new(-1, 0), 'd');
    assert_eq!(map.len(), 3);
    assert_eq!(map.entry(0), (TileCoord::new(5, 5), &'a'));
    assert_eq!(map.entry(1), (TileCoord::new(-1, 0), &'d'));
    assert_eq!(map.entry(2), (TileCoord::new(0, -1), &'c'));
    assert_eq!(map.get(TileCoord::new(-1, 0)), Some(&'d'));
    assert_eq!(map.get(TileCoord::new(0, 0)), None);
    assert!(map.contains_key(TileCoord::new(0, -1)));
    assert!(!map.contains_key(TileCoord::new(-1, -1)));
    map.set_value(2, 'e');
    assert_eq!(map.get(TileCoord::new(0, -1)), Some(&'e'));
    assert_eq!(map.len(), 3);
}

#[test]
fn coord_map_tells_coordinates_apart_at_the_ends() {
    let mut map = CoordMap::new();
    let corners = [
        TileCoord::new(i32::MIN, i32::MIN),
        TileCoord::new(i32::MIN, i32::MAX),
        TileCoord::new(i32::MAX, i32::MIN),
        TileCoord::new(i32::MAX, i32::MAX),
        TileCoord::new(0, -1),
        TileCoord::new(-1, 0),
    ];
    for (at, corner) in corners.iter().enumerate() {
        map.insert(*corner, at);
    }
    assert_eq!(map.len(), corners.len());
    for (at, corner) in corners.iter().enumerate() {
        assert_eq!(map.get(*corner), Some(&at));
    }
}

#[test]
fn data_is_what_it_was_made_as() {
    let coord = Data::Coord(TileCoord::new(1, 2));
    assert_eq!(coord.as_coord(), Some(TileCoord::new(1, 2)));
    assert_eq!(coord.as_id(), None);
    assert_eq!(Data::Id(Id(4)).as_id(), Some(Id(4)));
    assert_eq!(Data::Id(Id(4)).as_coord(), None);
    assert_eq!(Data::Amount(9).as_amount(), Some(9));
    assert_eq!(Data::Amount(9).as_bool(), None);
    assert_eq!(Data::Bool(false).as_bool(), Some(false));
    assert_eq!(Data::Bool(false).as_amount(), None);
    assert_eq!(Id(4).raw(), 4);
}

#[test]
fn data_map_holds_one_value_for_a_key() {
    let mut data = DataMap::new();
    assert_eq!(data.get(Id(1)), None);
    data.insert(Id(1), Data::Bool(true));
    data.insert(Id(2), Data::Amount(3));
    data.insert(Id(1), Data::Amount(4));
    assert_eq!(data.get(Id(1)), Some(&Data::Amount(4)));
    assert_eq!(data.get(Id(2)), Some(&Data::Amount(3)));
    assert!(data.contains_key(Id(2)));
    assert!(!data.contains_key(Id(3)));
}

#[test]
fn transform_turns_within_a_full_circle() {
    let placed = Transform::placed(Placement::Tile(TileCoord::new(1, 1)));
    assert_eq!(placed.turn, 0);
    assert_eq!(placed.turned(0).turn, 0);
    assert_eq!(placed.turned(-60).turn, 300);
    assert_eq!(placed.turned(-300).turn, 60);
    assert_eq!(placed.turned(-60).turned(-300).turn, 0);
    assert_eq!(placed.turned(360).turn, 0);
    assert_eq!(placed.turned(725).turn, 5);
    assert_eq!(placed.turned(i32::MIN).turn, 232);
    assert_eq!(placed.turned(i32::MAX).turn, 127);
    assert_eq!(placed.turned(-120).base, Placement::Tile(TileCoord::new(1, 1)));
    assert_eq!(Transform { turn: u16::MAX, ..placed }.turned(0).turn, 15);
    assert_eq!(Transform::identity(), Transform::placed(Placement::Identity));
}

#[test]
fn instance_builders_replace_one_field() {
    let plain = InstanceData::default();
    assert_eq!(
        plain,
        InstanceData {
            color_offset: Rgba { r: 0, g: 0, b: 0, a: 0 },
            light_pos: LightPos::Origin,
            model_matrix: Transform::identity(),
        }
    );
    let placed = Transform::placed(Placement::Given(7));
    assert_eq!(plain.with_model_matrix(placed), InstanceData { model_matrix: placed, ..plain });
    assert_eq!(plain.with_color_offset(red()), InstanceData { color_offset: red(), ..plain });
    assert_eq!(
        plain.with_light_pos(LightPos::Camera),
        InstanceData { light_pos: LightPos::Camera, ..plain }
    );
}
