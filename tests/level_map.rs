use wolfengate::actions::{ActionState, ActionStateBuilder, Actions, LinearActionState, NothingActionState};
use wolfengate::crossing::{crossing_at, Crossing};
use wolfengate::door::{LateralOpening, Openable, FULL};
use wolfengate::index::TextureIndex;
use wolfengate::map::{EnemyType, LevelMap, MapConfiguration, MapError, Tile};
use wolfengate::shoot::{AnimationStep, WeaponConfiguration};

const DOOR_OPENING_SPEED: u64 = 3_000_000;

fn default_configuration() -> MapConfiguration {
    let door_state = ActionState::Linear(LinearActionState::new(
        DOOR_OPENING_SPEED,
        Openable::Lateral(LateralOpening::new()),
    ));
    let door_state_builder = ActionStateBuilder::new(door_state);
    let glass_state_builder = ActionStateBuilder::new(ActionState::Nothing(NothingActionState::new()));
    let weapon_animation = AnimationStep::new(100000, TextureIndex::new(0));
    let weapon_configuration = WeaponConfiguration::new(
        TextureIndex::new(0),
        weapon_animation,
        weapon_animation,
        weapon_animation,
        100,
    );

    let mut configuration = MapConfiguration::new(TextureIndex::new(0), weapon_configuration);
    configuration.add('#', Tile::Solid(TextureIndex::new(1)));
    configuration.add('D', Tile::Dynamic(TextureIndex::new(2), TextureIndex::new(4), door_state_builder));
    configuration.add('G', Tile::Dynamic(TextureIndex::new(3), TextureIndex::new(4), glass_state_builder));
    configuration.add(' ', Tile::Nothing);

    configuration.add_enemy('E', EnemyType::new(TextureIndex::new(4)));

    configuration.add_spawn('u');
    configuration.add_spawn('d');
    configuration.add_spawn('l');
    configuration.add_spawn('r');

    configuration
}

fn build_map(paving: &str) -> LevelMap {
    LevelMap::new(paving, default_configuration()).unwrap()
}

fn is_solid(tile: Option<&Tile>) -> bool {
    matches!(tile, Some(Tile::Solid(_)))
}

#[test]
fn map_should_read_paving_information() {
    let map = build_map("###\n# #\n# #\n###");

    assert!(is_solid(map.paving_at(0, 0)));
    assert!(is_solid(map.paving_at(1, 0)));
    assert!(is_solid(map.paving_at(2, 0)));

    assert!(is_solid(map.paving_at(0, 1)));
    assert!(matches!(map.paving_at(1, 1), Some(Tile::Nothing)));
    assert!(is_solid(map.paving_at(2, 1)));

    assert!(is_solid(map.paving_at(0, 2)));
    assert!(matches!(map.paving_at(1, 2), Some(Tile::Nothing)));
    assert!(is_solid(map.paving_at(2, 2)));

    assert!(is_solid(map.paving_at(0, 3)));
    assert!(is_solid(map.paving_at(1, 3)));
    assert!(is_solid(map.paving_at(2, 3)));
}

#[test]
fn map_should_not_get_paving_information_on_tiles_with_x_coordinate_bigger_than_width_map() {
    let map = build_map("  \n  ");
    assert!(map.paving_at(0, 2).is_none());
}

#[test]
fn map_should_not_get_paving_information_on_tiles_with_x_coordinate_bigger_than_height_map() {
    let map = build_map("  \n  ");
    assert!(map.paving_at(2, 0).is_none());
}

#[test]
fn map_should_not_get_paving_information_on_tiles_with_negative_x_coordinate() {
    let map = build_map("  \n  ");
    assert!(map.paving_at(-1, 0).is_none());
}

#[test]
fn map_should_not_get_paving_information_on_tiles_with_negative_y_coordinate() {
    let map = build_map("  \n  ");
    assert!(map.paving_at(0, -1).is_none());
}

#[test]
fn map_should_not_validate_a_map_with_inconsistent_column_number() {
    let map = LevelMap::new("   \n  ", default_configuration());
    assert_eq!(Some(MapError::InconsistentColumns), map.err());
}

#[test]
fn map_should_not_validate_a_map_with_unknown_char() {
    let map = LevelMap::new("#k\n #", default_configuration());
    assert_eq!(Some(MapError::UnknownChar), map.err());
}

#[test]
fn unknown_char_is_reported_before_inconsistent_columns() {
    let map = LevelMap::new("###\n#k", default_configuration());
    assert_eq!(Some(MapError::UnknownChar), map.err());
}

#[test]
fn map_rows_are_read_bottom_up_and_empty_lines_skipped() {
    let map = build_map("#D\n\n G");
    assert_eq!(2, map.width());
    assert_eq!(2, map.height());
    assert!(matches!(map.paving_at(0, 0), Some(Tile::Nothing)));
    assert!(matches!(map.paving_at(1, 0), Some(Tile::Dynamic(t, _, _)) if t.id() == 3));
    assert!(is_solid(map.paving_at(0, 1)));
    assert!(matches!(map.paving_at(1, 1), Some(Tile::Dynamic(t, _, _)) if t.id() == 2));
    assert_eq!(0, map.border_texture().id());
}

#[test]
fn empty_text_is_an_empty_map() {
    let map = build_map("");
    assert_eq!(0, map.width());
    assert_eq!(0, map.height());
    assert!(map.paving_at(0, 0).is_none());
}

#[test]
fn marks_put_free_space_and_record_their_tile() {
    let map = build_map("#####\n#E u#\n# E #\n#####");
    assert!(matches!(map.paving_at(1, 2), Some(Tile::Nothing)));
    assert!(matches!(map.paving_at(3, 2), Some(Tile::Nothing)));
    let enemies = map.generate_enemies();
    assert_eq!(2, enemies.len());
    assert_eq!((1, 2), (enemies[0].1.x(), enemies[0].1.y()));
    assert_eq!((2, 1), (enemies[1].1.x(), enemies[1].1.y()));
    assert_eq!(4, enemies[0].0.texture().id());
    let player = map.generate_player().unwrap();
    assert_eq!('u', player.0);
    assert_eq!((3, 2), (player.1.x(), player.1.y()));
    assert_eq!(0, map.generate_weapon().elapsed_in_microseconds());
}

#[test]
fn last_player_mark_wins() {
    let map = build_map("u \n d");
    let player = map.generate_player().unwrap();
    assert_eq!('d', player.0);
    assert_eq!((1, 0), (player.1.x(), player.1.y()));
    assert!(build_map("# #").generate_player().is_none());
}

#[test]
fn later_configuration_entries_override_earlier_ones() {
    let mut configuration = default_configuration();
    configuration.add('#', Tile::Solid(TextureIndex::new(9)));
    let map = LevelMap::new("#", configuration).unwrap();
    assert!(matches!(map.paving_at(0, 0), Some(Tile::Solid(t)) if t.id() == 9));
}

#[test]
fn too_many_columns_are_refused() {
    let line = "#".repeat(40000);
    let map = LevelMap::new(&line, default_configuration());
    assert_eq!(Some(MapError::TooLarge), map.err());
}

#[test]
fn actions_should_read_paving_information() {
    let map = build_map("###\n# #\n# #\n###");

    let actions = Actions::new(&map);

    for x in 0..3 {
        for y in 0..4 {
            assert!(actions.state_at(x, y).is_some());
        }
    }
}

#[test]
fn actions_should_not_get_paving_information_on_tiles_with_x_coordinate_bigger_than_width_map() {
    let map = build_map("  \n  ");
    let actions = Actions::new(&map);
    assert!(actions.state_at(0, 2).is_none());
}

#[test]
fn actions_should_not_get_paving_information_on_tiles_with_x_coordinate_bigger_than_height_map() {
    let map = build_map("  \n  ");
    let actions = Actions::new(&map);
    assert!(actions.state_at(2, 0).is_none());
}

#[test]
fn actions_should_not_get_paving_information_on_tiles_with_negative_x_coordinate() {
    let map = build_map("  \n  ");
    let actions = Actions::new(&map);
    assert!(actions.state_at(-1, 0).is_none());
}

#[test]
fn actions_should_not_get_paving_information_on_tiles_with_negative_y_coordinate() {
    let map = build_map("  \n  ");
    let actions = Actions::new(&map);
    assert!(actions.state_at(0, -1).is_none());
}

#[test]
fn activate_opens_only_the_addressed_door() {
    let map = build_map("#D#D#");
    let mut actions = Actions::new(&map);
    actions.activate(1, 0);
    actions.activate(7, 0);
    actions.activate(-1, 0);
    actions.notify_elapsed(100_000);
    assert_eq!(300_000, actions.state_at(1, 0).unwrap().activated_percentage());
    assert_eq!(0, actions.state_at(3, 0).unwrap().activated_percentage());
    assert!(matches!(actions.state_at(0, 0), Some(ActionState::Nothing(_))));
    actions.notify_elapsed(1_000_000);
    assert_eq!(FULL, actions.state_at(1, 0).unwrap().activated_percentage());
}

#[test]
fn crossings_follow_tiles_and_door_states() {
    let map = build_map("#D \n G#");
    let mut actions = Actions::new(&map);
    assert_eq!(Crossing::Border(TextureIndex::new(0)), crossing_at(&map, &actions, -1, 0));
    assert_eq!(Crossing::Wall(TextureIndex::new(1)), crossing_at(&map, &actions, 0, 1));
    assert_eq!(Crossing::Open, crossing_at(&map, &actions, 2, 1));
    match crossing_at(&map, &actions, 1, 1) {
        Crossing::Door { inside, outside, blocking, opening, .. } => {
            assert_eq!(2, inside.id());
            assert_eq!(4, outside.id());
            assert!(blocking);
            assert_eq!(0, opening);
        }
        other => panic!("expected a door, got {:?}", other),
    }
    actions.activate(1, 1);
    actions.notify_elapsed(1_000_000);
    match crossing_at(&map, &actions, 1, 1) {
        Crossing::Door { blocking, opening, .. } => {
            assert!(!blocking);
            assert_eq!(FULL, opening);
        }
        other => panic!("expected a door, got {:?}", other),
    }
    match crossing_at(&map, &actions, 1, 0) {
        Crossing::Door { inside, blocking, opening, .. } => {
            assert_eq!(3, inside.id());
            assert!(blocking);
            assert_eq!(0, opening);
        }
        other => panic!("expected a pane, got {:?}", other),
    }
}

#[test]
fn door_above_the_centre_is_met_before_the_border() {
    let map = build_map("##D##\n#   #\n#   #\n#####");
    let actions = Actions::new(&map);
    assert_eq!(Crossing::Open, crossing_at(&map, &actions, 2, 2));
    assert!(matches!(
        crossing_at(&map, &actions, 2, 3),
        Crossing::Door { blocking: true, opening: 0, .. }
    ));
    assert_eq!(Crossing::Border(TextureIndex::new(0)), crossing_at(&map, &actions, 2, 4));
}

#[test]
fn wall_beside_a_door_is_the_same_wall_without_it() {
    let with_door = build_map("#D#\n# #\n###");
    let without_door = build_map("# #\n# #\n###");
    let with_actions = Actions::new(&with_door);
    let without_actions = Actions::new(&without_door);
    assert_eq!(crossing_at(&with_door, &with_actions, 0, 2), crossing_at(&without_door, &without_actions, 0, 2));
    assert_eq!(crossing_at(&with_door, &with_actions, 2, 2), crossing_at(&without_door, &without_actions, 2, 2));
}
