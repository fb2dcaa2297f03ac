use laddercast::keys::Pubkey;
use laddercast::rng::RandomGenerator;
use laddercast::tile::{cycle_tile, get_current_tile, get_current_tile_feature, get_highest_level_and_column, Tile, TileMap, TileType};

fn slot_hashes() -> Vec<u8> {
    (0..512 * 40).map(|i| ((i * 31 + 7) % 251) as u8).collect()
}

fn create_tile_for_testing(feature: TileType, life: u8, is_first_time_spawning: bool) -> Tile {
    Tile { life, tile_type: feature, is_first_time_spawning }
}

#[test]
fn test_cycle_tile_tile_is_none() {
    let mut rand = RandomGenerator::new(&slot_hashes(), Pubkey::new([21; 32]));

    let generated_tile = cycle_tile(None, 1, &mut rand);

    assert!(generated_tile.life >= 3 && generated_tile.life <= 6);
    assert!(matches!(generated_tile.tile_type, TileType::Fire | TileType::Water | TileType::Earth));
    assert!(generated_tile.is_first_time_spawning);
}

#[test]
fn test_cycle_tile_is_crafting_or_legendary() {
    let current_tile = create_tile_for_testing(TileType::Crafting, 1, false);

    let mut rand = RandomGenerator::new(&slot_hashes(), Pubkey::new([22; 32]));

    let generated_tile = cycle_tile(Some(current_tile), 1, &mut rand);

    assert!(generated_tile.life >= 3 && generated_tile.life <= 6);
    assert!(matches!(generated_tile.tile_type, TileType::Fire | TileType::Water | TileType::Earth));
}

#[test]
fn test_cycle_tile_is_resource_is_not_first_time_spawning() {
    let current_tile = create_tile_for_testing(TileType::Fire, 1, false);

    let mut rand = RandomGenerator::new(&slot_hashes(), Pubkey::new([23; 32]));

    let generated_tile = cycle_tile(Some(current_tile), 1, &mut rand);

    assert_eq!(generated_tile.life, 1);
    assert_eq!(generated_tile.tile_type, TileType::Crafting);
}

#[test]
fn test_cycle_tile_is_resource_is_first_time_spawning() {
    let current_tile = create_tile_for_testing(TileType::Fire, 1, true);

    let mut rand = RandomGenerator::new(&slot_hashes(), Pubkey::new([24; 32]));

    let generated_tile = cycle_tile(Some(current_tile), 1, &mut rand);

    assert_eq!(generated_tile.life, 1);
    assert_eq!(generated_tile.tile_type, TileType::Legendary);
}

#[test]
fn test_cycle_tile_is_resource_is_level_30_tile() {
    let current_tile = create_tile_for_testing(TileType::Fire, 1, false);

    let mut rand = RandomGenerator::new(&slot_hashes(), Pubkey::new([25; 32]));

    let generated_tile = cycle_tile(Some(current_tile), 29, &mut rand);

    assert_eq!(generated_tile.life, 1);
    assert_eq!(generated_tile.tile_type, TileType::Legendary);
}

#[test]
fn test_get_highest_level_and_column() {
    let mut map: TileMap = [[None; 3]; 30];

    map[0][0] = Some(create_tile_for_testing(TileType::Fire, 1, false));
    map[1][0] = Some(create_tile_for_testing(TileType::Fire, 1, false));
    map[0][1] = Some(create_tile_for_testing(TileType::Fire, 1, false));
    map[2][0] = Some(create_tile_for_testing(TileType::Fire, 1, false));
    map[2][1] = Some(create_tile_for_testing(TileType::Fire, 1, false));

    let (highest_level, highest_column) = get_highest_level_and_column(&map);

    assert_eq!(highest_level, 2);
    assert_eq!(highest_column, 1);
}

#[test]
fn test_get_current_tile() {
    let mut map: TileMap = [[None; 3]; 30];

    map[0][0] = Some(create_tile_for_testing(TileType::Fire, 1, false));
    map[1][0] = Some(create_tile_for_testing(TileType::Fire, 1, false));
    map[0][1] = Some(create_tile_for_testing(TileType::Fire, 1, false));
    map[2][0] = Some(create_tile_for_testing(TileType::Fire, 1, false));
    map[2][1] = Some(create_tile_for_testing(TileType::Fire, 1, false));

    let current_tile = get_current_tile(&map, 2, 1);

    assert_eq!(current_tile.unwrap().tile_type, map[2][1].unwrap().tile_type);
    assert_eq!(current_tile.unwrap().is_first_time_spawning, map[2][1].unwrap().is_first_time_spawning);
    assert_eq!(current_tile.unwrap().life, map[2][1].unwrap().life);
}

#[test]
fn highest_of_empty_board_and_off_board_lookups() {
    let map: TileMap = [[None; 3]; 30];
    assert_eq!(get_highest_level_and_column(&map), (0, 0));
    assert!(get_current_tile(&map, 30, 0).is_none());
    assert!(get_current_tile(&map, 0, 3).is_none());
    let types = [[Some(TileType::Water); 3]; 30];
    assert_eq!(get_current_tile_feature(&types, 29, 2), Some(TileType::Water));
    assert_eq!(get_current_tile_feature(&types, 29, 3), None);
}

#[test]
fn fresh_tile_from_known_bytes() {
    let mut hash = [0u8; 32];
    hash[0] = 7; // extra life 7 % 4 = 3
    hash[1] = 4; // type 4 % 3 = 1: Water
    let mut rand = RandomGenerator { offset: 0, hash };
    let t = cycle_tile(None, 3, &mut rand);
    assert_eq!(t, Tile { tile_type: TileType::Water, life: 6, is_first_time_spawning: true });
    assert_eq!(rand.offset, 2);
}
