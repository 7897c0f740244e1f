use bytemon_dungeon::actor::Actor;
use bytemon_dungeon::decimal::{i16_dec, u32_dec};
use bytemon_dungeon::log::{actor_attack, actor_pos_update, add_to_log, tail, Log};
use bytemon_dungeon::world::{ETileType, TileMap, World};

#[test]
fn decimal_rendering() {
    assert_eq!(u32_dec(0), "0");
    assert_eq!(u32_dec(7), "7");
    assert_eq!(u32_dec(12345), "12345");
    assert_eq!(i16_dec(-1), "-1");
    assert_eq!(i16_dec(-32768), "-32768");
    assert_eq!(i16_dec(32767), "32767");
}

#[test]
fn log_messages() {
    let mut log = Log::new();
    add_to_log(&mut log, "raw entry".to_owned());
    actor_attack(&mut log, &"Ana".to_owned(), &"Bob".to_owned());
    actor_pos_update(&mut log, &"Ana".to_owned(), &(-3i16, 7i16));
    assert_eq!(log.history.len(), 3);
    assert_eq!(log.history[0], "raw entry");
    assert_eq!(log.history[1], "Ana attacks Bob.");
    assert_eq!(log.history[2], "Ana moved to -3/7");
}

#[test]
fn tail_returns_first_ten_in_order() {
    let mut log = Log::new();
    for i in 0..12 {
        add_to_log(&mut log, format!("entry {i}"));
    }
    let t = tail(&log);
    assert_eq!(t.len(), 10);
    for i in 0..10 {
        assert_eq!(t[i], format!("entry {i}"));
    }
}

#[test]
fn tail_on_short_log() {
    let mut log = Log::new();
    add_to_log(&mut log, "one".to_owned());
    add_to_log(&mut log, "two".to_owned());
    let t = tail(&log);
    assert_eq!(t, vec!["one".to_owned(), "two".to_owned()]);
}

#[test]
fn map_generation_wall_count() {
    let map = TileMap::init_basic_square();
    let tiles = map.get_tiles();
    assert_eq!(tiles.len(), 100);
    let walls = tiles
        .iter()
        .filter(|t| matches!(t.ttype, ETileType::Wall))
        .count();
    let floors = tiles
        .iter()
        .filter(|t| matches!(t.ttype, ETileType::Floor))
        .count();
    assert_eq!(walls, 36);
    assert_eq!(floors, 64);
}

#[test]
fn tile_glyphs() {
    assert_eq!(ETileType::Floor.get_char(), '.');
    assert_eq!(ETileType::Wall.get_char(), '#');
}

#[test]
fn player_move_onto_floor() {
    let mut log = Log::new();
    let player = Actor::new_player("Teste".to_owned());
    let mut world = World::start_empty_square(player);

    world.player_move((1, 0), &mut log);

    assert_eq!(world.player.get_position(), (6i16, 5i16));
    assert_eq!(log.history.len(), 1);
    assert!(log.history[0].contains("moved to"));
    assert_eq!(log.history[0], "Teste moved to 6/5");
}

#[test]
fn player_move_into_wall() {
    let mut log = Log::new();
    let player = Actor::new_player("Teste".to_owned());
    let mut world = World::start_empty_square(player);

    // The destination (5, 0) is on the border: a wall.
    world.player_move((0, -5), &mut log);

    assert_eq!(world.player.get_position(), (5i16, 5i16));
    assert_eq!(log.history.len(), 1);
    assert!(log.history[0].contains("hitted a wall"));
    assert_eq!(log.history[0], "Teste hitted a wall.");
}

#[test]
fn player_move_off_grid() {
    let mut log = Log::new();
    let player = Actor::new_player("Teste".to_owned());
    let mut world = World::start_empty_square(player);

    // No tile exists at (5, 15): silently ignored, nothing logged.
    world.player_move((0, 10), &mut log);

    assert_eq!(world.player.get_position(), (5i16, 5i16));
    assert_eq!(log.history.len(), 0);
}

#[test]
fn print_map_layout() {
    let player = Actor::new_player("Teste".to_owned());
    let world = World::start_empty_square(player);

    let text = world.print_map();
    let expected = "\
##########\n\
#........#\n\
#........#\n\
#........#\n\
#........#\n\
#....@...#\n\
#........#\n\
#........#\n\
#........#\n\
##########\n";
    assert_eq!(text, expected);
}

#[test]
fn print_map_other_origin_layout() {
    let player = Actor::new_player("Teste".to_owned());
    let world = World::start_empty_square(player);

    let text = world.print_map_other_origin();
    // For origin (0, 0): exactly limit_y lines, each of limit_x glyphs.
    let lines: Vec<&str> = text.lines().collect();
    assert_eq!(lines.len(), 10);
    for line in &lines {
        assert_eq!(line.len(), 10);
    }
    assert!(text.ends_with('\n'));
    // Storage is column-major relative to this row-major view, so the
    // player's row here is offset 5 with the glyph at column 5.
    assert_eq!(lines[5], "#....@...#");
}
