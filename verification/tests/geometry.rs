use ascending::gametypes::enums::{Dir, MapPos, MapPosDir};
use ascending::gametypes::map_position::MapPosition;
use ascending::gametypes::position::{in_range, Position};
use ascending::gametypes::sharedstructs::get_dir_sides;
use ascending::maps::map::{
    check_surrounding, contains_map, get_directional_maps, get_map_dir_pos_in_range, get_map_pos_in_range,
    get_surrounding, get_surrounding_dir, get_surrounding_set, map_offset_range,
};

fn mp(x: i32, y: i32) -> MapPosition {
    MapPosition::new(x, y, 0)
}

#[test]
fn position_distance_and_direction() {
    let a = Position::new(5, 5, mp(0, 0));
    assert_eq!(a.checkdistance(Position::new(8, 7, mp(0, 0))), 4);
    assert_eq!(a.checkdistance(Position::new(5, 9, mp(0, 0))), 4);
    assert_eq!(a.checkdistance(Position::new(5, 5, mp(0, 0))), 0);
    assert_eq!(a.checkdirection(Position::new(1, 5, mp(0, 0))), Some(Dir::Left));
    assert_eq!(a.checkdirection(Position::new(9, 6, mp(0, 0))), Some(Dir::Right));
    assert_eq!(a.checkdirection(Position::new(6, 6, mp(0, 0))), None);
    assert!(in_range(4, Position::new(8, 7, mp(0, 0)), a));
    assert!(!in_range(3, Position::new(8, 7, mp(0, 0)), a));
}

#[test]
fn position_offsets_and_tiles() {
    let p = Position::new_offset(-1, 32, mp(3, 3));
    assert_eq!(p, Position::new(31, 0, mp(2, 4)));
    assert_eq!(Position::new_checked(31, 31, mp(0, 0)), Some(Position::new(31, 31, mp(0, 0))));
    assert_eq!(Position::new_checked(32, 0, mp(0, 0)), None);
    assert!(Position::new(-1, 4, mp(0, 0)).left_map());
    assert!(!Position::new(0, 31, mp(0, 0)).left_map());
    assert_eq!(Position::new(3, 2, mp(0, 0)).as_tile(), 67);
    assert_eq!(Position::new(4, 4, mp(0, 0)).map_offset(MapPosDir::Right), Position::new(36, 4, mp(0, 0)));
    assert_eq!(Position::new(4, 4, mp(0, 0)).map_offset(MapPosDir::UpLeft), Position::new(-28, 36, mp(0, 0)));
}

#[test]
fn map_position_helpers() {
    assert_eq!(mp(2, 3).map_offset(MapPosDir::Down), mp(2, 2));
    assert_eq!(mp(2, 3).map_offset(MapPosDir::Up), mp(2, 4));
    assert_eq!(mp(0, 0).checkdistance(mp(3, -2)), 4);
    assert_eq!(mp(0, 0).checkdistance(mp(0, -2)), 2);
    assert_eq!(MapPosition::new(0, 0, 0).checkdistance(MapPosition::new(0, 0, 1)), 5000);
}

#[test]
fn surrounding_maps() {
    let around = get_surrounding(mp(0, 0), true);
    assert_eq!(around.len(), 9);
    assert_eq!(around[0], mp(0, 0));
    assert_eq!(get_surrounding(mp(0, 0), false).len(), 5);
    let dirs = get_surrounding_dir(mp(0, 0), true);
    assert_eq!(dirs[1], MapPos::Up(mp(0, 1)));
    assert_eq!(dirs[1].dir(), MapPosDir::Up);
    assert_eq!(dirs[1].get(), Some(mp(0, 1)));
    assert!(dirs[1].contains(mp(0, 1)));
    let set = get_surrounding_set(mp(4, 4));
    assert_eq!(set.len(), 9);
    for m in &set {
        assert_eq!(set.iter().filter(|n| *n == m).count(), 1);
    }
}

#[test]
fn check_surrounding_sides() {
    assert_eq!(check_surrounding(mp(0, 0), mp(1, 0), false), MapPos::Right(mp(1, 0)));
    assert_eq!(check_surrounding(mp(0, 0), mp(1, 1), false), MapPos::Outside);
    assert_eq!(check_surrounding(mp(0, 0), mp(1, 1), true), MapPos::UpRight(mp(1, 1)));
    assert_eq!(check_surrounding(mp(0, 0), mp(0, 0), false), MapPos::Center(mp(0, 0)));
    assert_eq!(check_surrounding(mp(0, 0), mp(2, 0), true), MapPos::Outside);
}

#[test]
fn directional_maps() {
    assert_eq!(get_directional_maps(mp(0, 0), Dir::Right), vec![mp(1, 0), mp(1, 1), mp(1, -1)]);
    assert_eq!(get_directional_maps(mp(0, 0), Dir::Down), vec![mp(0, -1), mp(-1, -1), mp(1, -1)]);
}

#[test]
fn dir_sides() {
    assert_eq!(get_dir_sides(0), [1, 3]);
    assert_eq!(get_dir_sides(2), [1, 3]);
    assert_eq!(get_dir_sides(1), [0, 2]);
    assert_eq!(get_dir_sides(7), [0, 2]);
}

#[test]
fn maps_in_range() {
    let known = get_surrounding(mp(0, 0), true);
    let pos = Position::new(1, 30, mp(0, 0));
    let found = get_map_pos_in_range(&known, &pos, 2);
    assert_eq!(found, vec![mp(0, 0), mp(0, -1), mp(-1, 0), mp(-1, -1)]);
    let tagged = get_map_dir_pos_in_range(&known, &pos, 2);
    assert_eq!(tagged[0], MapPos::Center(mp(0, 0)));
    assert_eq!(tagged.len(), 4);
    let only_centre = vec![mp(0, 0)];
    assert_eq!(get_map_pos_in_range(&only_centre, &pos, 2), vec![mp(0, 0)]);
    let middle = Position::new(16, 16, mp(0, 0));
    assert_eq!(get_map_pos_in_range(&known, &middle, 1), vec![mp(0, 0)]);
    assert!(contains_map(&known, mp(1, 1)));
    assert!(!contains_map(&known, mp(2, 1)));
}

#[test]
fn offset_range_finds_neighbour_and_far_maps() {
    let allowed = vec![mp(0, 0), mp(1, 0), mp(2, 0)];
    let start = Position::new(5, 5, mp(0, 0));
    let mut processed = Vec::new();
    assert_eq!(map_offset_range(start, Position::new(3, 3, mp(0, 0)), &allowed, &mut processed), Some(Position::new(3, 3, mp(0, 0))));
    let mut processed = Vec::new();
    assert_eq!(map_offset_range(start, Position::new(3, 3, mp(1, 0)), &allowed, &mut processed), Some(Position::new(35, 3, mp(1, 0))));
    let mut processed = Vec::new();
    let far = map_offset_range(start, Position::new(3, 3, mp(2, 0)), &allowed, &mut processed);
    assert_eq!(far, Some(Position::new(67, 3, mp(2, 0))));
    let mut processed = Vec::new();
    assert_eq!(map_offset_range(start, Position::new(3, 3, mp(5, 0)), &allowed, &mut processed), None);
    let mut processed = vec![mp(1, 0)];
    assert_eq!(map_offset_range(start, Position::new(3, 3, mp(2, 0)), &allowed, &mut processed), None);
    assert!(processed.contains(&mp(0, 0)));
    let around = vec![mp(0, 0), mp(0, 1), mp(1, 1), mp(2, 1), mp(2, 0)];
    let mut processed = Vec::new();
    assert_eq!(
        map_offset_range(start, Position::new(3, 3, mp(2, 0)), &around, &mut processed),
        Some(Position::new(67, 3, mp(2, 0)))
    );
    let mut processed = Vec::new();
    assert_eq!(map_offset_range(start, Position::new(3, 3, MapPosition::new(1, 0, 1)), &allowed, &mut processed), None);
}

#[test]
fn surrounding_is_distance_one() {
    let p = mp(3, -2);
    let around = get_surrounding(p, true);
    for x in -2..=8 {
        for y in -7..=3 {
            let q = mp(x, y);
            assert_eq!(around.contains(&q), q.checkdistance(p) <= 1, "map {:?}", q);
        }
    }
    assert!(!around.contains(&MapPosition::new(3, -2, 1)));
}
