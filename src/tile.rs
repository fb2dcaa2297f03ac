use vstd::prelude::*;

use crate::rng::{advanced_by, byte_at, can_draw, fitted, Enumerable, RandomGenerator};

verus! {

pub const MAX_LEVEL_0_BASED: u8 = 29;
pub const MAX_LEVEL_1_BASED: u8 = 30;
pub const MAX_COLUMN_0_BASED: u8 = 2;
pub const MINIMUM_TILE_LIFE: u8 = 3;

#[derive(Clone, Copy, Debug, PartialEq, Eq, Structural)]
pub enum TileType {
    Earth,
    Water,
    Fire,
    Crafting,
    Legendary,
}

#[derive(Clone, Copy, Debug, PartialEq, Eq, Structural)]
pub struct Tile {
    pub tile_type: TileType,
    pub life: u8,
    pub is_first_time_spawning: bool,
}

/// The board: 30 levels of 3 columns.
pub type TileMap = [[Option<Tile>; 3]; 30];

/// The board reduced to the type of each tile.
pub type TileTypeMap = [[Option<TileType>; 3]; 30];

pub open spec fn is_resource(t: TileType) -> bool {
    t == TileType::Earth || t == TileType::Water || t == TileType::Fire
}

/// The variant of `TileType` at position `i` of its declaration.
pub open spec fn tile_type_at(i: int) -> TileType {
    if i == 0 {
        TileType::Earth
    } else if i == 1 {
        TileType::Water
    } else if i == 2 {
        TileType::Fire
    } else if i == 3 {
        TileType::Crafting
    } else {
        TileType::Legendary
    }
}

impl Enumerable for TileType {
    open spec fn count() -> nat {
        5
    }

    open spec fn variant_at(i: int) -> TileType {
        tile_type_at(i)
    }

    fn variant_count() -> (r: u8) {
        5
    }

    fn from_index(i: u8) -> (r: TileType)
    {
        match i {
            0 => TileType::Earth,
            1 => TileType::Water,
            2 => TileType::Fire,
            3 => TileType::Crafting,
            _ => TileType::Legendary,
        }
    }
}

/// A fresh resource tile made from the next two draws of `r`: the first
/// sets the extra life in `[0, 3]`, the second the type among Earth, Water
/// and Fire.
pub open spec fn spawned_tile(r: RandomGenerator, first_time: bool) -> Tile {
    Tile {
        tile_type: tile_type_at(fitted(byte_at(r, 1), 0, 2)),
        life: (MINIMUM_TILE_LIFE + fitted(byte_at(r, 0), 0, 3)) as u8,
        is_first_time_spawning: first_time,
    }
}

/// How many draws cycling `tile` takes.
pub open spec fn cycle_draws(tile: Option<Tile>) -> nat {
    match tile {
        None => 2,
        Some(t) => if is_resource(t.tile_type) { 0 } else { 2 },
    }
}

/// What a tile becomes when its life runs out (or an empty cell when it is
/// first filled), at board level `level`.
pub open spec fn cycled_tile(tile: Option<Tile>, level: u8, r: RandomGenerator) -> Tile {
    match tile {
        None => spawned_tile(r, true),
        Some(t) => if !is_resource(t.tile_type) {
            spawned_tile(r, false)
        } else if level == MAX_LEVEL_0_BASED || t.is_first_time_spawning {
            Tile { tile_type: TileType::Legendary, life: 1, is_first_time_spawning: false }
        } else {
            Tile { tile_type: TileType::Crafting, life: 1, is_first_time_spawning: false }
        },
    }
}

/// Cycles a tile: an empty cell gets a fresh resource tile, a crafting or
/// legendary tile turns back into a resource tile, and a resource tile turns
/// into a crafting tile, or a legendary one at the top level or when it was
/// the first tile spawned in its cell.
pub fn cycle_tile(tile: Option<Tile>, level: u8, rand: &mut RandomGenerator) -> (r: Tile)
    requires
        cycle_draws(tile) > 0 ==> can_draw(*old(rand), cycle_draws(tile)),
    ensures
        r == cycled_tile(tile, level, *old(rand)),
        *final(rand) == advanced_by(*old(rand), cycle_draws(tile)),
        1 <= r.life <= 6,
{
    match tile {
        None => {
            let random_life = rand.random_within_range_u8(0, 3);
            Tile {
                tile_type: rand.random_enum_within_range::<TileType>(0, 2),
                life: MINIMUM_TILE_LIFE + random_life,
                is_first_time_spawning: true,
            }
        },
        Some(t) => {
            match t.tile_type {
                TileType::Crafting | TileType::Legendary => {
                    let random_life = rand.random_within_range_u8(0, 3);
                    Tile {
                        tile_type: rand.random_enum_within_range::<TileType>(0, 2),
                        life: MINIMUM_TILE_LIFE + random_life,
                        is_first_time_spawning: false,
                    }
                },
                _ => {
                    let feature = if level == MAX_LEVEL_0_BASED || t.is_first_time_spawning {
                        TileType::Legendary
                    } else {
                        TileType::Crafting
                    };
                    Tile { tile_type: feature, life: 1, is_first_time_spawning: false }
                },
            }
        },
    }
}

/// Position of cell `(i, j)` in level-major, column-minor scan order.
pub open spec fn scan_pos(i: int, j: int) -> int {
    3 * i + j
}

pub open spec fn occupied(map: TileMap, i: int, j: int) -> bool {
    map@[i]@[j].is_some()
}

/// `(l, c)` is the occupied cell that comes last in scan order.
pub open spec fn is_last_occupied(map: TileMap, l: int, c: int) -> bool {
    &&& 0 <= l < 30
    &&& 0 <= c < 3
    &&& occupied(map, l, c)
    &&& forall|i: int, j: int|
        0 <= i < 30 && 0 <= j < 3 && scan_pos(i, j) > scan_pos(l, c) ==> !occupied(map, i, j)
}

pub open spec fn map_is_empty(map: TileMap) -> bool {
    forall|i: int, j: int| 0 <= i < 30 && 0 <= j < 3 ==> !occupied(map, i, j)
}

/// The last occupied cell in scan order, or `(0, 0)` on an empty board.
pub fn get_highest_level_and_column(map: &TileMap) -> (r: (u8, u8))
    ensures
        !map_is_empty(*map) ==> is_last_occupied(*map, r.0 as int, r.1 as int),
        map_is_empty(*map) ==> r == (0u8, 0u8),
{
    let mut highest_level: usize = 0;
    let mut highest_column: usize = 0;
    let ghost mut found = false;
    let mut i: usize = 0;
    while i < 30
        invariant
            0 <= i <= 30,
            highest_level < 30,
            highest_column < 3,
            found ==> occupied(*map, highest_level as int, highest_column as int),
            found ==> forall|a: int, b: int|
                0 <= a < i && 0 <= b < 3 && scan_pos(a, b) > scan_pos(
                    highest_level as int,
                    highest_column as int,
                ) ==> !occupied(*map, a, b),
            !found ==> highest_level == 0 && highest_column == 0,
            !found ==> forall|a: int, b: int| 0 <= a < i && 0 <= b < 3 ==> !occupied(*map, a, b),
        decreases 30 - i,
    {
        let mut j: usize = 0;
        while j < 3
            invariant
                0 <= i < 30,
                0 <= j <= 3,
                highest_level < 30,
                highest_column < 3,
                found ==> occupied(*map, highest_level as int, highest_column as int),
                found ==> forall|a: int, b: int|
                    0 <= a < 30 && 0 <= b < 3 && scan_pos(a, b) < scan_pos(i as int, j as int)
                        && scan_pos(a, b) > scan_pos(highest_level as int, highest_column as int)
                        ==> !occupied(*map, a, b),
                !found ==> highest_level == 0 && highest_column == 0,
                !found ==> forall|a: int, b: int|
                    0 <= a < 30 && 0 <= b < 3 && scan_pos(a, b) < scan_pos(i as int, j as int)
                        ==> !occupied(*map, a, b),
            decreases 3 - j,
        {
            if map[i][j].is_some() {
                highest_level = i;
                highest_column = j;
                proof {
                    found = true;
                }
            }
            j = j + 1;
        }
        i = i + 1;
    }
    (highest_level as u8, highest_column as u8)
}

/// The tile at `(dest_level, dest_column)`, if the cell is on the board and
/// occupied.
pub fn get_current_tile(map: &TileMap, dest_level: u8, dest_column: u8) -> (r: Option<Tile>)
    ensures
        r == (if dest_level < 30 && dest_column < 3 {
            map@[dest_level as int]@[dest_column as int]
        } else {
            None
        }),
{
    if dest_level < 30 && dest_column < 3 {
        map[dest_level as usize][dest_column as usize]
    } else {
        None
    }
}

/// The tile type at `(dest_level, dest_column)` of a reduced board.
pub fn get_current_tile_feature(map: &TileTypeMap, dest_level: u8, dest_column: u8) -> (r: Option<TileType>)
    ensures
        r == (if dest_level < 30 && dest_column < 3 {
            map@[dest_level as int]@[dest_column as int]
        } else {
            None
        }),
{
    if dest_level < 30 && dest_column < 3 {
        map[dest_level as usize][dest_column as usize]
    } else {
        None
    }
}

/// The type of an optional tile.
pub open spec fn type_of(t: Option<Tile>) -> Option<TileType> {
    match t {
        None => None,
        Some(t) => Some(t.tile_type),
    }
}

/// `types` is `map` reduced to tile types, cell by cell.
pub open spec fn is_type_projection(map: TileMap, types: TileTypeMap) -> bool {
    forall|i: int, j: int| 0 <= i < 30 && 0 <= j < 3 ==> types@[i]@[j] == type_of(map@[i]@[j])
}

/// Reduces the board to the type of each tile.
pub fn tile_types_of(map: &TileMap) -> (r: TileTypeMap)
    ensures
        is_type_projection(*map, r),
{
    let mut result: TileTypeMap = [[None; 3]; 30];
    let mut i: usize = 0;
    while i < 30
        invariant
            0 <= i <= 30,
            forall|a: int, b: int| 0 <= a < i && 0 <= b < 3 ==> result@[a]@[b] == type_of(map@[a]@[b]),
        decreases 30 - i,
    {
        let mut row: [Option<TileType>; 3] = [None; 3];
        let mut j: usize = 0;
        while j < 3
            invariant
                0 <= i < 30,
                0 <= j <= 3,
                forall|b: int| 0 <= b < j ==> row@[b] == type_of(map@[i as int]@[b]),
            decreases 3 - j,
        {
            let cell = match map[i][j] {
                None => None,
                Some(t) => Some(t.tile_type),
            };
            row[j] = cell;
            j = j + 1;
        }
        result[i] = row;
        i = i + 1;
    }
    result
}

/// At the top level, and wherever it is the first tile of its cell, a
/// resource tile that runs out turns into a legendary crafting tile, never
/// a plain one.
pub proof fn lemma_resource_tile_turns_legendary(t: Tile, level: u8, r: RandomGenerator)
    requires
        is_resource(t.tile_type),
        level == MAX_LEVEL_0_BASED || t.is_first_time_spawning,
    ensures
        cycled_tile(Some(t), level, r).tile_type == TileType::Legendary,
        cycled_tile(Some(t), level, r).life == 1,
{
}

} // verus!
