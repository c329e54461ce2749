use bevy::ecs::entity::Entity;
use bevy_ecs_tilemap::map::TilemapSize;
use bevy_ecs_tilemap::tiles::{TilePos, TileStorage};
use rockford::components::Delta;
use rockford::game::{fill_input_buffer, MovementStage, NUM_TILES, SCREEN_HEIGHT, SCREEN_WIDTH};
use rockford::plugins::dig_tunnel::dig;
use rockford::plugins::movement::{
    checked_movement_target, destination, movement_action, movement_target, select_mover, MoveAction,
    MoveCandidate, MovementPlugin,
};
use rockford::tile_map::{
    is_collider_char, parse_map, random_index_from_draw, sprite_index_for_char, startup_tiles, tile_at,
    tile_type_from_char, SpriteIndex, Tile, TileCollider, TileSpawn, TileType,
};

#[test]
fn sprite_indices_of_tile_types() {
    assert_eq!(TileType::Wall.get_sprite_index(), 32);
    assert_eq!(TileType::Dirt.get_sprite_index(), 33);
    assert_eq!(TileType::Tunnel.get_sprite_index(), 36);
    assert_eq!(TileType::Player.get_sprite_index(), 0);
    assert_eq!(TileType::Diamond.get_sprite_index(), 40);
    assert_eq!(TileType::Boulder.get_sprite_index(), 33);
    assert_eq!(TileType::Exit.get_sprite_index(), 33);
}

#[test]
fn map_characters() {
    assert_eq!(tile_type_from_char('#'), TileType::Wall);
    assert_eq!(tile_type_from_char('.'), TileType::Dirt);
    assert_eq!(tile_type_from_char('_'), TileType::Tunnel);
    assert_eq!(tile_type_from_char('R'), TileType::Player);
    assert_eq!(tile_type_from_char('*'), TileType::Diamond);
    assert_eq!(tile_type_from_char('x'), TileType::Dirt);
    assert_eq!(sprite_index_for_char('#'), 32);
    assert_eq!(sprite_index_for_char('.'), 33);
    assert_eq!(sprite_index_for_char('_'), 36);
    assert_eq!(sprite_index_for_char('?'), 36);
    assert!(is_collider_char('#'));
    assert!(!is_collider_char('.'));
}

fn lines(text: &[&str]) -> Vec<Vec<char>> {
    text.iter().map(|l| l.chars().collect()).collect()
}

#[test]
fn parsing_a_map() {
    let map = parse_map(&lines(&["#.R", "", "*_"]));
    assert_eq!(map.len(), 3);
    assert_eq!(map[0], vec![TileType::Wall, TileType::Dirt, TileType::Player]);
    assert!(map[1].is_empty());
    assert_eq!(map[2], vec![TileType::Diamond, TileType::Tunnel]);
    assert_eq!(tile_at(&map, 0, 2), Some(TileType::Player));
    assert_eq!(tile_at(&map, 1, 0), None);
    assert_eq!(tile_at(&map, 5, 0), None);
}

#[test]
fn start_map_reads_bottom_up() {
    let mut text: Vec<String> = (0..8).map(|_| "#".repeat(18)).collect();
    text[7] = format!("R{}", "_".repeat(17));
    text[0] = "*".to_string();
    let refs: Vec<&str> = text.iter().map(|s| s.as_str()).collect();
    let map = parse_map(&lines(&refs));
    let spawns = startup_tiles(&map);
    assert_eq!(spawns.len(), 18 * 7 + 1);
    assert_eq!(spawns[0], TileSpawn { x: 0, y: 0, tile: TileType::Player, texture_index: 0 });
    assert!(spawns.contains(&TileSpawn { x: 0, y: 7, tile: TileType::Diamond, texture_index: 40 }));
    assert!(!spawns.iter().any(|s| s.x == 1 && s.y == 7));
    assert!(spawns.contains(&TileSpawn { x: 1, y: 0, tile: TileType::Tunnel, texture_index: 36 }));
}

#[test]
fn random_offsets() {
    assert_eq!(random_index_from_draw(4, 9), 0);
    assert_eq!(random_index_from_draw(3, 9), 4);
    assert_eq!(random_index_from_draw(3, 5), 0);
}

#[test]
fn tile_components() {
    let t = Tile { spriteAtlasIndex: 33 };
    assert_eq!(t.spriteAtlasIndex, 33);
    let _c = TileCollider;
    let _p = MovementPlugin;
}

#[test]
fn digging_makes_a_tunnel() {
    let mut t = TileType::Dirt;
    dig(&mut t);
    assert_eq!(t, TileType::Tunnel);
    let mut w = TileType::Wall;
    dig(&mut w);
    assert_eq!(w, TileType::Tunnel);
}

#[test]
fn destinations() {
    assert_eq!(destination(3, 4, Delta::constant(1, 0)), (4, 4));
    assert_eq!(destination(3, 4, Delta::constant(0, -1)), (3, 3));
    assert_eq!(destination(0, 0, Delta::constant(-1, 0)), (u32::MAX, 0));
}

fn storage() -> TileStorage {
    let mut s = TileStorage::empty(TilemapSize { x: 3, y: 2 });
    s.set(&TilePos { x: 2, y: 1 }, Entity::from_raw(7));
    s.set(&TilePos { x: 0, y: 0 }, Entity::from_raw(9));
    s
}

#[test]
fn movement_targets() {
    let s = storage();
    assert_eq!(movement_target(&s, 1, 1, Delta::constant(1, 0)), Some(Entity::from_raw(7).to_bits()));
    assert_eq!(movement_target(&s, 1, 0, Delta::constant(-1, 0)), Some(Entity::from_raw(9).to_bits()));
    assert_eq!(movement_target(&s, 1, 0, Delta::constant(1, 0)), None);
    assert_eq!(checked_movement_target(&s, 2, 1, Delta::constant(1, 0)), None);
    assert_eq!(checked_movement_target(&s, 0, 0, Delta::constant(0, -1)), None);
    assert_eq!(checked_movement_target(&s, 2, 0, Delta::constant(0, 1)), Some(Entity::from_raw(7).to_bits()));
}

#[test]
fn movement_actions() {
    assert_eq!(movement_action(1, 2, Some(TileType::Dirt)), MoveAction::MakeWay(2));
    assert_eq!(movement_action(1, 2, Some(TileType::Tunnel)), MoveAction::Enter { from: 1, to: 2 });
    assert_eq!(movement_action(1, 2, Some(TileType::Wall)), MoveAction::Stay);
    assert_eq!(movement_action(1, 2, Some(TileType::Diamond)), MoveAction::Stay);
    assert_eq!(movement_action(1, 2, None), MoveAction::Stay);
}

#[test]
fn dig_then_enter() {
    let mut tile = TileType::Dirt;
    assert_eq!(movement_action(1, 2, Some(tile)), MoveAction::MakeWay(2));
    dig(&mut tile);
    assert_eq!(movement_action(1, 2, Some(tile)), MoveAction::Enter { from: 1, to: 2 });
}

#[test]
fn the_last_player_moves() {
    let c = |e: u64, p: bool| MoveCandidate { entity: e, pos_x: 0, pos_y: 0, delta: Delta::zero(), is_player: p };
    assert_eq!(select_mover(&vec![c(1, false), c(2, true), c(3, true), c(4, false)]), Some(2));
    assert_eq!(select_mover(&vec![c(1, false)]), None);
    assert_eq!(select_mover(&vec![]), None);
}

#[test]
fn input_buffer_is_filled_and_cleared() {
    let mut b = [9u16; 5];
    fill_input_buffer(&mut b, b"ab");
    assert_eq!(b, [97, 98, 0, 0, 0]);
    let mut c = [9u16; 2];
    fill_input_buffer(&mut c, b"xyz");
    assert_eq!(c, [120, 121]);
}

#[test]
fn screen_constants() {
    assert_eq!(NUM_TILES, (SCREEN_WIDTH * SCREEN_HEIGHT) as usize);
    assert_ne!(MovementStage::Moving, MovementStage::Digging);
}
