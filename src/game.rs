use vstd::prelude::*;

use crate::error::ErrorCode;
use crate::keys::Pubkey;
use crate::rng::{advanced_by, RandomGenerator};
use crate::tile::{
    cycle_tile, cycled_tile, cycle_draws, is_type_projection, occupied, scan_pos, tile_types_of,
    get_highest_level_and_column, is_last_occupied, Tile, TileMap, TileType,
    TileTypeMap, spawned_tile, MAX_COLUMN_0_BASED, MAX_LEVEL_0_BASED,
};

verus! {

#[derive(Clone, Copy, Debug, PartialEq, Eq, Structural)]
pub struct GameTurnInfo {
    pub turn: u32,
    /// Seconds that must pass between two cranks.
    pub turn_delay: u16,
    pub last_crank_seconds: i64,
    pub last_tile_spawn: u32,
    /// Turns between two new tiles.
    pub tile_spawn_delay: u32,
}

/// The shared state of one game.
#[derive(Clone, Copy, Debug)]
pub struct Game {
    pub authority: Pubkey,
    pub map: TileMap,
    pub turn_info: GameTurnInfo,
    pub last_turn_added: u32,
    pub signer_bump: u8,
    pub resource_1_mint_account: Pubkey,
    pub resource_2_mint_account: Pubkey,
    pub resource_3_mint_account: Pubkey,
    pub lada_mint_account: Pubkey,
    pub lada_token_account: Pubkey,
}

/// What one turn saw: the resources burned during it (the denominator of the
/// reward split) and the board's tile types as they stood when it began.
#[derive(Clone, Copy, Debug)]
pub struct TurnData {
    pub bump: u8,
    pub resource_1_burned: u64,
    pub resource_2_burned: u64,
    pub resource_3_burned: u64,
    pub map: TileTypeMap,
}

impl Default for TurnData {
    /// Nothing burned and an empty board.
    fn default() -> (r: TurnData)
        ensures
            r.bump == 0,
            r.resource_1_burned == 0,
            r.resource_2_burned == 0,
            r.resource_3_burned == 0,
            forall|i: int, j: int| 0 <= i < 30 && 0 <= j < 3 ==> r.map@[i]@[j].is_none(),
    {
        TurnData::empty()
    }
}

impl TurnData {
    fn empty() -> (r: TurnData)
        ensures
            r.bump == 0,
            r.resource_1_burned == 0,
            r.resource_2_burned == 0,
            r.resource_3_burned == 0,
            forall|i: int, j: int| 0 <= i < 30 && 0 <= j < 3 ==> r.map@[i]@[j].is_none(),
    {
        let mut map: TileTypeMap = [[None; 3]; 30];
        let mut i: usize = 0;
        while i < 30
            invariant
                0 <= i <= 30,
                forall|a: int, b: int| 0 <= a < i && 0 <= b < 3 ==> map@[a]@[b].is_none(),
            decreases 30 - i,
        {
            map[i] = [None, None, None];
            i = i + 1;
        }
        TurnData { bump: 0, resource_1_burned: 0, resource_2_burned: 0, resource_3_burned: 0, map }
    }
}

/// What is announced when a turn begins: its number and the new board.
#[derive(Clone, Copy, Debug)]
pub struct NewTurn {
    pub turn: u32,
    pub tile_map: TileMap,
}

impl Game {
    /// The board reduced to tile types, as stored in a turn's snapshot.
    pub fn get_map_as_tile_features_only(&self) -> (r: TileTypeMap)
        ensures
            is_type_projection(self.map, r),
    {
        tile_types_of(&self.map)
    }
}

/// Number of occupied cells among the first `k` in scan order.
pub open spec fn occupied_before(map: TileMap, k: int) -> nat
    decreases k,
{
    if k <= 0 {
        0
    } else {
        occupied_before(map, k - 1) + (if map@[(k - 1) / 3]@[(k - 1) % 3].is_some() {
            1nat
        } else {
            0nat
        })
    }
}

/// A board in its resting shape: the occupied cells are the first `n` in
/// scan order for some `n >= 1`, and no tile has run out of life.
pub open spec fn map_wf(map: TileMap) -> bool {
    &&& occupied_before(map, 90) >= 1
    &&& forall|i: int, j: int|
        0 <= i < 30 && 0 <= j < 3 ==> (occupied(map, i, j) <==> scan_pos(i, j) < occupied_before(
            map,
            90,
        ))
    &&& forall|i: int, j: int|
        0 <= i < 30 && 0 <= j < 3 && occupied(map, i, j) ==> map@[i]@[j].unwrap().life >= 1
}

/// Draws that aging one cell takes.
pub open spec fn cell_draws(c: Option<Tile>) -> nat {
    match c {
        None => 0,
        Some(t) => if t.life <= 1 { cycle_draws(c) } else { 0 },
    }
}

/// Draws that aging the first `k` cells in scan order takes.
pub open spec fn aging_draws(map: TileMap, k: int) -> nat
    decreases k,
{
    if k <= 0 {
        0
    } else {
        aging_draws(map, k - 1) + cell_draws(map@[(k - 1) / 3]@[(k - 1) % 3])
    }
}

/// Cell `(i, j)` after one turn of aging, the cells before it in scan order
/// having used their draws of `r`.
pub open spec fn aged_cell(map: TileMap, i: int, j: int, r: RandomGenerator) -> Option<Tile> {
    match map@[i]@[j] {
        None => None,
        Some(t) => if t.life <= 1 {
            Some(cycled_tile(Some(t), i as u8, advanced_by(r, aging_draws(map, scan_pos(i, j)))))
        } else {
            Some(Tile { life: (t.life - 1) as u8, ..t })
        },
    }
}

/// A new tile is due at the end of this turn.
pub open spec fn spawn_due(info: GameTurnInfo, map: TileMap) -> bool {
    info.turn + 1 >= info.last_tile_spawn + info.tile_spawn_delay && occupied_before(map, 90) < 90
}

/// The crank may run at `now`.
pub open spec fn crank_ready(info: GameTurnInfo, now: i64) -> bool {
    now >= info.last_crank_seconds + info.turn_delay
}

proof fn lemma_scan_split(i: int, j: int)
    requires
        0 <= i,
        0 <= j < 3,
    ensures
        scan_pos(i, j) / 3 == i,
        scan_pos(i, j) % 3 == j,
{
    assert((3 * i + j) / 3 == i && (3 * i + j) % 3 == j) by (nonlinear_arith)
        requires
            0 <= i,
            0 <= j < 3,
    ;
}

proof fn lemma_aging_draws_mono(map: TileMap, a: int, b: int)
    requires
        0 <= a <= b,
    ensures
        aging_draws(map, a) <= aging_draws(map, b),
    decreases b - a,
{
    if a < b {
        lemma_aging_draws_mono(map, a, b - 1);
    }
}

proof fn lemma_occupied_before_bound(map: TileMap, k: int)
    requires
        0 <= k,
    ensures
        occupied_before(map, k) <= k,
    decreases k,
{
    if k > 0 {
        lemma_occupied_before_bound(map, k - 1);
    }
}

/// Draws that aging the whole board takes.
pub fn aging_draws_needed(map: &TileMap) -> (r: u32)
    ensures
        r == aging_draws(*map, 90),
{
    let mut total: u32 = 0;
    let mut k: usize = 0;
    while k < 90
        invariant
            0 <= k <= 90,
            total == aging_draws(*map, k as int),
            total <= 2 * k,
        decreases 90 - k,
    {
        let c = map[k / 3][k % 3];
        let d: u32 = match c {
            None => 0,
            Some(t) => if t.life <= 1 {
                match t.tile_type {
                    TileType::Crafting | TileType::Legendary => 2,
                    _ => 0,
                }
            } else {
                0
            },
        };
        total = total + d;
        k = k + 1;
    }
    total
}

/// Cell `(i, j)` after a crank: aged, or the new tile where one is due.
pub open spec fn cranked_cell(
    map: TileMap,
    info: GameTurnInfo,
    r: RandomGenerator,
    i: int,
    j: int,
) -> Option<Tile> {
    if spawn_due(info, map) && scan_pos(i, j) == occupied_before(map, 90) {
        Some(spawned_tile(advanced_by(r, aging_draws(map, 90)), true))
    } else {
        aged_cell(map, i, j, r)
    }
}

/// Draws that a crank takes.
pub open spec fn crank_draws(map: TileMap, info: GameTurnInfo) -> nat {
    aging_draws(map, 90) + if spawn_due(info, map) { 2nat } else { 0nat }
}

proof fn lemma_prefix_count(map: TileMap, m: int, k: int)
    requires
        0 <= m <= 90,
        0 <= k <= 90,
        forall|i: int, j: int|
            0 <= i < 30 && 0 <= j < 3 ==> (occupied(map, i, j) <==> scan_pos(i, j) < m),
    ensures
        occupied_before(map, k) == if k < m { k } else { m },
    decreases k,
{
    if k > 0 {
        lemma_prefix_count(map, m, k - 1);
        let i = (k - 1) / 3;
        let j = (k - 1) % 3;
        assert(scan_pos(i, j) == k - 1);
        assert(0 <= i < 30 && 0 <= j < 3);
        assert(occupied(map, i, j) <==> k - 1 < m);
    }
}

proof fn lemma_last_is_count(map: TileMap, l: int, c: int)
    requires
        map_wf(map),
        is_last_occupied(map, l, c),
    ensures
        scan_pos(l, c) + 1 == occupied_before(map, 90),
        occupied_before(map, 90) <= 90,
{
    lemma_occupied_before_bound(map, 90);
    let n = occupied_before(map, 90) as int;
    let i = (n - 1) / 3;
    let j = (n - 1) % 3;
    assert(scan_pos(i, j) == n - 1);
    assert(occupied(map, i, j));
}

/// Advances the game by one turn once its delay has passed: every tile loses
/// one life and the tiles that run out are cycled, one new tile is appended
/// after the last occupied cell when the spawn delay has passed and the board
/// is not full, and the turn counter moves on. Returns the board's tile types
/// as they stood before, the snapshot of the turn that ends.
pub fn crank(game: &mut Game, now: i64, rand: &mut RandomGenerator) -> (r: Result<TileTypeMap, ErrorCode>)
    requires
        map_wf(old(game).map),
        old(game).turn_info.turn < u32::MAX,
        old(rand).offset + aging_draws(old(game).map, 90) + 2 <= 32,
    ensures
        !crank_ready(old(game).turn_info, now) ==> {
            &&& r == Err::<TileTypeMap, ErrorCode>(ErrorCode::PrematureCrankPull)
            &&& *final(game) == *old(game)
            &&& *final(rand) == *old(rand)
        },
        crank_ready(old(game).turn_info, now) ==> {
            &&& r is Ok
            &&& is_type_projection(old(game).map, r->Ok_0)
            &&& forall|i: int, j: int|
                0 <= i < 30 && 0 <= j < 3 ==> final(game).map@[i]@[j] == cranked_cell(
                    old(game).map,
                    old(game).turn_info,
                    *old(rand),
                    i,
                    j,
                )
            &&& map_wf(final(game).map)
            &&& *final(rand) == advanced_by(
                *old(rand),
                crank_draws(old(game).map, old(game).turn_info),
            )
            &&& final(game).turn_info == (GameTurnInfo {
                turn: (old(game).turn_info.turn + 1) as u32,
                last_crank_seconds: now,
                last_tile_spawn: if spawn_due(old(game).turn_info, old(game).map) {
                    (old(game).turn_info.turn + 1) as u32
                } else {
                    old(game).turn_info.last_tile_spawn
                },
                ..old(game).turn_info
            })
            &&& final(game).last_turn_added == final(game).turn_info.turn
            &&& final(game).authority == old(game).authority
            &&& final(game).signer_bump == old(game).signer_bump
            &&& final(game).resource_1_mint_account == old(game).resource_1_mint_account
            &&& final(game).resource_2_mint_account == old(game).resource_2_mint_account
            &&& final(game).resource_3_mint_account == old(game).resource_3_mint_account
            &&& final(game).lada_mint_account == old(game).lada_mint_account
            &&& final(game).lada_token_account == old(game).lada_token_account
        },
{
    let ready: bool = (now as i128) >= (game.turn_info.last_crank_seconds as i128)
        + (game.turn_info.turn_delay as i128);
    if !ready {
        return Err(ErrorCode::PrematureCrankPull);
    }
    let snapshot = game.get_map_as_tile_features_only();
    let ghost orig = game.map;
    let ghost r0 = *rand;
    proof {
        lemma_aging_draws_mono(orig, 0, 90);
    }
    let mut map = game.map;
    let mut k: usize = 0;
    while k < 90
        invariant
            0 <= k <= 90,
            orig == old(game).map,
            map_wf(orig),
            r0 == *old(rand),
            r0.offset + aging_draws(orig, 90) + 2 <= 32,
            *rand == advanced_by(r0, aging_draws(orig, k as int)),
            forall|a: int, b: int|
                0 <= a < 30 && 0 <= b < 3 && scan_pos(a, b) < k ==> map@[a]@[b] == aged_cell(
                    orig,
                    a,
                    b,
                    r0,
                ),
            forall|a: int, b: int|
                0 <= a < 30 && 0 <= b < 3 && scan_pos(a, b) >= k ==> map@[a]@[b] == orig@[a]@[b],
        decreases 90 - k,
    {
        let i = k / 3;
        let j = k % 3;
        proof {
            lemma_scan_split(i as int, j as int);
            lemma_aging_draws_mono(orig, k as int + 1, 90);
            assert(aging_draws(orig, k as int + 1) == aging_draws(orig, k as int) + cell_draws(
                orig@[i as int]@[j as int],
            ));
        }
        match map[i][j] {
            None => {},
            Some(t) => {
                proof {
                    assert(map@[i as int]@[j as int] == orig@[i as int]@[j as int]);
                    assert(occupied(orig, i as int, j as int));
                }
                let nt = if t.life == 1 {
                    cycle_tile(Some(t), i as u8, rand)
                } else {
                    Tile { life: t.life - 1, ..t }
                };
                let mut row = map[i];
                row[j] = Some(nt);
                map[i] = row;
            },
        }
        proof {
            assert forall|a: int, b: int|
                0 <= a < 30 && 0 <= b < 3 && scan_pos(a, b) < k + 1 implies map@[a]@[b]
                == aged_cell(orig, a, b, r0) by {
                if scan_pos(a, b) == k {
                    lemma_scan_split(a, b);
                }
            }
        }
        k = k + 1;
    }
    proof {
        assert forall|a: int, b: int| 0 <= a < 30 && 0 <= b < 3 implies (occupied(map, a, b)
            <==> occupied(orig, a, b)) by {
            assert(scan_pos(a, b) < 90);
            assert(map@[a]@[b] == aged_cell(orig, a, b, r0));
        }
        lemma_occupied_before_bound(orig, 90);
    }
    let (hl, hc) = get_highest_level_and_column(&map);
    proof {
        lemma_last_is_count(orig, hl as int, hc as int);
    }
    let due: bool = (game.turn_info.turn as u64 + 1) >= (game.turn_info.last_tile_spawn as u64)
        + (game.turn_info.tile_spawn_delay as u64) && !(hl == MAX_LEVEL_0_BASED && hc
        == MAX_COLUMN_0_BASED);
    let ghost n = occupied_before(orig, 90) as int;
    let ghost aged = map;
    let ghost mut pl: int = 0;
    let ghost mut pc: int = 0;
    let ghost mut spawned: Tile = spawned_tile(*rand, true);
    proof {
        assert(due == spawn_due(old(game).turn_info, orig));
        assert(*rand == advanced_by(r0, aging_draws(orig, 90)));
    }
    if due {
        if hc < MAX_COLUMN_0_BASED {
            let new_tile = cycle_tile(None, hl, rand);
            let mut row = map[hl as usize];
            row[(hc + 1) as usize] = Some(new_tile);
            map[hl as usize] = row;
            proof {
                pl = hl as int;
                pc = hc + 1;
            }
        } else {
            let new_tile = cycle_tile(None, hl + 1, rand);
            let mut row = map[(hl + 1) as usize];
            row[0] = Some(new_tile);
            map[(hl + 1) as usize] = row;
            proof {
                pl = hl + 1;
                pc = 0;
            }
        }
        game.turn_info.last_tile_spawn = game.turn_info.turn + 1;
    }
    proof {
        let m = if due { n + 1 } else { n };
        assert(due ==> scan_pos(pl, pc) == n && 0 <= pl < 30 && 0 <= pc < 3);
        assert(due ==> map@[pl]@[pc] == Some(spawned));
        assert forall|a: int, b: int| 0 <= a < 30 && 0 <= b < 3 implies (occupied(map, a, b)
            <==> scan_pos(a, b) < m) && map@[a]@[b] == cranked_cell(
            orig,
            old(game).turn_info,
            r0,
            a,
            b,
        ) by {
            assert(scan_pos(a, b) < 90);
            assert(aged@[a]@[b] == aged_cell(orig, a, b, r0));
            assert(occupied(aged, a, b) <==> occupied(orig, a, b));
            if due && scan_pos(a, b) == n {
                lemma_scan_split(a, b);
                lemma_scan_split(pl, pc);
                assert(a == pl && b == pc);
            } else if due {
                assert(!(a == pl && b == pc));
                assert(map@[a]@[b] == aged@[a]@[b]);
            }
        }
        lemma_prefix_count(map, m, 90);
    }
    game.map = map;
    game.turn_info.turn = game.turn_info.turn + 1;
    game.turn_info.last_crank_seconds = now;
    game.last_turn_added = game.turn_info.turn;
    Ok(snapshot)
}

/// Whether the board is in its resting shape (see `map_wf`).
pub fn check_map_wf(map: &TileMap) -> (r: bool)
    ensures
        r == map_wf(*map),
{
    let mut n: usize = 0;
    let mut k: usize = 0;
    while k < 90
        invariant
            0 <= n <= k <= 90,
            n == occupied_before(*map, k as int),
            forall|i: int, j: int|
                0 <= i < 30 && 0 <= j < 3 && scan_pos(i, j) < k ==> (occupied(*map, i, j) <==> scan_pos(i, j) < n),
            forall|i: int, j: int|
                0 <= i < 30 && 0 <= j < 3 && scan_pos(i, j) < k && occupied(*map, i, j) ==> map@[i]@[j].unwrap().life >= 1,
        decreases 90 - k,
    {
        let i = k / 3;
        let j = k % 3;
        proof {
            lemma_scan_split(i as int, j as int);
        }
        match map[i][j] {
            Some(t) => {
                if n < k {
                    proof {
                        let a = (n / 3) as int;
                        let b = (n % 3) as int;
                        lemma_scan_split(a, b);
                        assert(!occupied(*map, a, b));
                        lemma_occupied_before_bound(*map, 90);
                        assert(occupied(*map, i as int, j as int));
                        if map_wf(*map) {
                            assert(scan_pos(i as int, j as int) < occupied_before(*map, 90));
                            assert(occupied(*map, a, b));
                        }
                    }
                    return false;
                }
                if t.life < 1 {
                    proof {
                        assert(occupied(*map, i as int, j as int));
                    }
                    return false;
                }
                n = n + 1;
            },
            None => {},
        }
        k = k + 1;
    }
    n >= 1
}

} // verus!
