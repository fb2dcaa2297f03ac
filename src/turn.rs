use vstd::prelude::*;

use crate::actions::{
    highest, recorded, CommittedActions, CraftingSnapshot, SpellSnapshot, TurnCommit,
    ACTION_CRAFT_INDEX, ACTION_LOOT_INDEX, ACTION_MOVE_INDEX, ACTION_SPELL_INDEX,
};
use crate::caster::{is_key, is_spell_successful, spell_odds, Caster};
use crate::enums::{ItemFeature, ItemRarity, SpellType};
use crate::error::ErrorCode;
use crate::game::{Game, TurnData};
use crate::items::{zombify_account, Item, ItemType};
use crate::keys::Pubkey;
use crate::rng::{advanced_by, byte_at, can_draw, fitted, RandomGenerator};
use crate::tile::{get_current_tile, is_resource, Tile, TileMap, TileType};

verus! {

pub const MOVE_COST_MULTIPLIER: u64 = 10;
pub const CRAFTING_COST_MULTIPLIER: u64 = 5;

/// A commit for `turn` with nothing recorded.
pub open spec fn fresh_commit(turn: u32) -> TurnCommit {
    TurnCommit {
        turn,
        resources_burned: [0u64, 0u64, 0u64],
        actions: CommittedActions {
            loot: false,
            spell: None,
            mv: None,
            crafting: None,
            action_order: [0u8, 0u8, 0u8, 0u8],
        },
    }
}

/// The commit that a new action of turn `game_turn` joins.
pub open spec fn base_commit(existing: Option<TurnCommit>, game_turn: u32) -> TurnCommit {
    match existing {
        Some(t) => t,
        None => fresh_commit(game_turn),
    }
}

/// A pending commit of another turn must be redeemed before acting again.
pub open spec fn pending_other_turn(existing: Option<TurnCommit>, game_turn: u32) -> bool {
    existing is Some && existing.unwrap().turn != game_turn
}

/// The commit that a new action joins: the pending one of this turn, or a
/// fresh one when there is none.
pub fn current_commit(existing: Option<TurnCommit>, game_turn: u32) -> (r: Result<TurnCommit, ErrorCode>)
    ensures
        pending_other_turn(existing, game_turn) ==> r == Err::<TurnCommit, ErrorCode>(ErrorCode::PendingTurn),
        !pending_other_turn(existing, game_turn) ==> (r matches Ok(t) && same_commit(t, base_commit(existing, game_turn))),
{
    match existing {
        Some(t) => if t.turn != game_turn {
            Err(ErrorCode::PendingTurn)
        } else {
            Ok(t)
        },
        None => {
            let t = TurnCommit::new(game_turn);
            assert(t.resources_burned@ =~= fresh_commit(game_turn).resources_burned@);
            assert(t.actions.action_order@ =~= fresh_commit(game_turn).actions.action_order@);
            Ok(t)
        },
    }
}

/// Equal field by field, arrays compared by their contents.
pub open spec fn same_commit(a: TurnCommit, b: TurnCommit) -> bool {
    &&& a.turn == b.turn
    &&& a.resources_burned@ == b.resources_burned@
    &&& a.actions.loot == b.actions.loot
    &&& a.actions.spell == b.actions.spell
    &&& a.actions.mv == b.actions.mv
    &&& a.actions.crafting == b.actions.crafting
    &&& a.actions.action_order@ == b.actions.action_order@
}

/// Equal field by field, the ledger compared by its contents.
pub open spec fn same_actions(a: CommittedActions, b: CommittedActions) -> bool {
    &&& a.loot == b.loot
    &&& a.spell == b.spell
    &&& a.mv == b.mv
    &&& a.crafting == b.crafting
    &&& a.action_order@ == b.action_order@
}

/// The character is the same but for its commit.
pub open spec fn same_but_commit(a: Caster, b: Caster) -> bool {
    &&& a.version == b.version
    &&& a.level == b.level
    &&& a.experience == b.experience
    &&& a.owner == b.owner
    &&& a.modifiers == b.modifiers
}

/// Slot of the resource that a tile yields and that moving onto it costs:
/// fire, water, earth; none for crafting tiles.
pub open spec fn resource_slot(t: TileType) -> int {
    match t {
        TileType::Fire => 0,
        TileType::Water => 1,
        TileType::Earth => 2,
        _ => -1,
    }
}

/// Burns of `amount` in slot `slot` only (none when `slot` is -1).
pub open spec fn burn_in(slot: int, amount: int) -> Seq<u64> {
    if 0 <= slot < 3 {
        seq![0u64, 0u64, 0u64].update(slot, amount as u64)
    } else {
        seq![0u64, 0u64, 0u64]
    }
}

/// The turn's totals after the burns `b` (fire, water, earth).
pub open spec fn totals_after(td: TurnData, b: Seq<u64>) -> TurnData {
    TurnData {
        resource_1_burned: (td.resource_1_burned + b[0]) as u64,
        resource_2_burned: (td.resource_2_burned + b[1]) as u64,
        resource_3_burned: (td.resource_3_burned + b[2]) as u64,
        ..td
    }
}

/// Room in every total for the burns `b`.
pub open spec fn burn_fits(td: TurnData, spent: Seq<u64>, b: Seq<u64>) -> bool {
    &&& td.resource_1_burned + b[0] <= u64::MAX
    &&& td.resource_2_burned + b[1] <= u64::MAX
    &&& td.resource_3_burned + b[2] <= u64::MAX
    &&& spent[0] + b[0] <= u64::MAX
    &&& spent[1] + b[1] <= u64::MAX
    &&& spent[2] + b[2] <= u64::MAX
}

pub open spec fn plus(a: Seq<u64>, b: Seq<u64>) -> Seq<u64> {
    seq![(a[0] + b[0]) as u64, (a[1] + b[1]) as u64, (a[2] + b[2]) as u64]
}

/// Adds the burns `b` to the turn's totals and to the commit's.
fn charge(turn_data: &mut TurnData, tc: &mut TurnCommit, b: [u64; 3])
    requires
        burn_fits(*old(turn_data), old(tc).resources_burned@, b@),
    ensures
        *final(turn_data) == totals_after(*old(turn_data), b@),
        final(tc).resources_burned@ == plus(old(tc).resources_burned@, b@),
        final(tc).turn == old(tc).turn,
        final(tc).actions == old(tc).actions,
{
    turn_data.resource_1_burned = turn_data.resource_1_burned + b[0];
    turn_data.resource_2_burned = turn_data.resource_2_burned + b[1];
    turn_data.resource_3_burned = turn_data.resource_3_burned + b[2];
    tc.resources_burned[0] = tc.resources_burned[0] + b[0];
    tc.resources_burned[1] = tc.resources_burned[1] + b[1];
    tc.resources_burned[2] = tc.resources_burned[2] + b[2];
    assert(tc.resources_burned@ =~= plus(old(tc).resources_burned@, b@));
}

fn resource_burn(t: TileType, amount: u64) -> (r: [u64; 3])
    ensures
        r@ == burn_in(resource_slot(t), amount as int),
{
    let r: [u64; 3] = match t {
        TileType::Fire => [amount, 0, 0],
        TileType::Water => [0, amount, 0],
        TileType::Earth => [0, 0, amount],
        _ => [0, 0, 0],
    };
    assert(r@ =~= burn_in(resource_slot(t), amount as int));
    r
}

/// Where the character acts: where its committed move leads, else where it stands.
pub open spec fn acting_position(c: Caster, tc: TurnCommit) -> (u8, u8) {
    match tc.actions.mv {
        Some(d) => (d[0], d[1]),
        None => (c.modifiers.tile_level, c.modifiers.tile_column),
    }
}

pub open spec fn tile_at(map: TileMap, level: u8, column: u8) -> Option<Tile> {
    if level < 30 && column < 3 {
        map@[level as int]@[column as int]
    } else {
        None
    }
}

pub open spec fn distance(a: u8, b: u8) -> int {
    if a >= b { a - b } else { b - a }
}

pub open spec fn move_cost(level: u8) -> int {
    (level + 1) * 10
}

/// What moving onto `(lvl, clm)` burns.
pub open spec fn move_burn(game: Game, lvl: u8, clm: u8) -> Seq<u64> {
    match tile_at(game.map, lvl, clm) {
        Some(t) => burn_in(resource_slot(t.tile_type), move_cost(lvl)),
        None => seq![0u64, 0u64, 0u64],
    }
}

/// Why a move to `(lvl, clm)` is refused, if it is.
pub open spec fn move_error(game: Game, c: Caster, balances: Seq<u64>, lvl: u8, clm: u8) -> Option<ErrorCode> {
    let tc = base_commit(c.turn_commit, game.turn_info.turn);
    let m = c.modifiers;
    if pending_other_turn(c.turn_commit, game.turn_info.turn) {
        Some(ErrorCode::PendingTurn)
    } else if tc.actions.mv is Some {
        Some(ErrorCode::ActionAlreadyDone)
    } else if lvl < m.tile_level || lvl > c.level - 1 {
        Some(ErrorCode::InvalidMove)
    } else if distance(clm, m.tile_column) > 1 || (lvl > m.tile_level && distance(clm, m.tile_column) != 0) {
        Some(ErrorCode::InvalidMove)
    } else if tile_at(game.map, lvl, clm) is None {
        Some(ErrorCode::TileNotExists)
    } else if is_resource(tile_at(game.map, lvl, clm).unwrap().tile_type) && balances[resource_slot(
        tile_at(game.map, lvl, clm).unwrap().tile_type,
    )] < move_cost(lvl) {
        Some(ErrorCode::PlayerIsPoor)
    } else {
        None
    }
}

/// Commits a move: up the ladder within the character's level and in the
/// same column, or sideways by one column on the same level, onto an
/// existing tile. It costs `(level + 1) * 10` of the destination's element,
/// nothing on a crafting tile. Returns what to burn: fire, water, earth.
pub fn caster_commit_move(
    game: &Game,
    turn_data: &mut TurnData,
    caster: &mut Caster,
    balances: [u64; 3],
    lvl: u8,
    clm: u8,
) -> (r: Result<[u64; 3], ErrorCode>)
    requires
        1 <= old(caster).level,
        burn_fits(
            *old(turn_data),
            base_commit(old(caster).turn_commit, game.turn_info.turn).resources_burned@,
            move_burn(*game, lvl, clm),
        ),
        highest(base_commit(old(caster).turn_commit, game.turn_info.turn).actions.action_order@) < 255,
    ensures
        match move_error(*game, *old(caster), balances@, lvl, clm) {
            Some(e) => r == Err::<[u64; 3], ErrorCode>(e) && *final(caster) == *old(caster)
                && *final(turn_data) == *old(turn_data),
            None => {
                let base = base_commit(old(caster).turn_commit, game.turn_info.turn);
                let burn = burn_in(
                    resource_slot(tile_at(game.map, lvl, clm).unwrap().tile_type),
                    move_cost(lvl),
                );
                &&& r matches Ok(b) && b@ == burn
                &&& *final(turn_data) == totals_after(*old(turn_data), burn)
                &&& same_but_commit(*final(caster), *old(caster))
                &&& final(caster).turn_commit matches Some(t) && {
                    &&& t.turn == base.turn
                    &&& t.resources_burned@ == plus(base.resources_burned@, burn)
                    &&& t.actions.action_order@ == recorded(base.actions.action_order@, ACTION_MOVE_INDEX as int)
                    &&& t.actions.mv matches Some(d) && d@ == seq![lvl, clm]
                    &&& t.actions.loot == base.actions.loot
                    &&& t.actions.spell == base.actions.spell
                    &&& t.actions.crafting == base.actions.crafting
                }
            },
        },
{
    let mut tc = match current_commit(caster.turn_commit, game.turn_info.turn) {
        Ok(t) => t,
        Err(e) => return Err(e),
    };
    if tc.actions.mv.is_some() {
        return Err(ErrorCode::ActionAlreadyDone);
    }
    let tile_level = caster.modifiers.tile_level;
    let tile_column = caster.modifiers.tile_column;
    if lvl < tile_level || lvl > caster.level - 1 {
        return Err(ErrorCode::InvalidMove);
    }
    let dist: u8 = if clm >= tile_column { clm - tile_column } else { tile_column - clm };
    if dist > 1 || (lvl > tile_level && dist != 0) {
        return Err(ErrorCode::InvalidMove);
    }
    let dest_tile = match get_current_tile(&game.map, lvl, clm) {
        Some(t) => t,
        None => return Err(ErrorCode::TileNotExists),
    };
    let cost: u64 = (lvl as u64 + 1) * MOVE_COST_MULTIPLIER;
    let burn = resource_burn(dest_tile.tile_type, cost);
    match dest_tile.tile_type {
        TileType::Fire => if balances[0] < cost {
            return Err(ErrorCode::PlayerIsPoor);
        },
        TileType::Water => if balances[1] < cost {
            return Err(ErrorCode::PlayerIsPoor);
        },
        TileType::Earth => if balances[2] < cost {
            return Err(ErrorCode::PlayerIsPoor);
        },
        _ => {},
    }
    charge(turn_data, &mut tc, burn);
    tc.actions.mv = Some([lvl, clm]);
    tc.actions.add_new_action_order(ACTION_MOVE_INDEX as u8);
    caster.turn_commit = Some(tc);
    proof {
        let d = tc.actions.mv.unwrap();
        assert(d@ =~= seq![lvl, clm]);
    }
    Ok(burn)
}

/// Why a loot commit is refused, if it is.
pub open spec fn loot_error(game: Game, c: Caster) -> Option<ErrorCode> {
    let tc = base_commit(c.turn_commit, game.turn_info.turn);
    let (l, col) = acting_position(c, tc);
    if pending_other_turn(c.turn_commit, game.turn_info.turn) {
        Some(ErrorCode::PendingTurn)
    } else if tile_at(game.map, l, col) is None {
        Some(ErrorCode::TileNotExists)
    } else if !is_resource(tile_at(game.map, l, col).unwrap().tile_type) {
        Some(ErrorCode::InvalidTileForLooting)
    } else if tc.actions.loot {
        Some(ErrorCode::ActionAlreadyDone)
    } else {
        None
    }
}

/// Commits looting the resource tile where the character acts (after its
/// committed move, if any). It costs nothing.
pub fn caster_commit_loot(game: &Game, caster: &mut Caster) -> (r: Result<(), ErrorCode>)
    requires
        highest(base_commit(old(caster).turn_commit, game.turn_info.turn).actions.action_order@) < 255,
    ensures
        match loot_error(*game, *old(caster)) {
            Some(e) => r == Err::<(), ErrorCode>(e) && *final(caster) == *old(caster),
            None => {
                let base = base_commit(old(caster).turn_commit, game.turn_info.turn);
                &&& r is Ok
                &&& same_but_commit(*final(caster), *old(caster))
                &&& final(caster).turn_commit matches Some(t) && {
                    &&& t.turn == base.turn
                    &&& t.resources_burned@ == base.resources_burned@
                    &&& t.actions.action_order@ == recorded(base.actions.action_order@, ACTION_LOOT_INDEX as int)
                    &&& t.actions.loot
                    &&& t.actions.mv == base.actions.mv
                    &&& t.actions.spell == base.actions.spell
                    &&& t.actions.crafting == base.actions.crafting
                }
            },
        },
{
    let mut tc = match current_commit(caster.turn_commit, game.turn_info.turn) {
        Ok(t) => t,
        Err(e) => return Err(e),
    };
    let (l, col): (u8, u8) = match tc.actions.mv {
        Some(d) => (d[0], d[1]),
        None => (caster.modifiers.tile_level, caster.modifiers.tile_column),
    };
    let tile = match get_current_tile(&game.map, l, col) {
        Some(t) => t,
        None => return Err(ErrorCode::TileNotExists),
    };
    match tile.tile_type {
        TileType::Earth | TileType::Fire | TileType::Water => {},
        _ => return Err(ErrorCode::InvalidTileForLooting),
    }
    if tc.actions.loot {
        return Err(ErrorCode::ActionAlreadyDone);
    }
    tc.actions.loot = true;
    tc.actions.add_new_action_order(ACTION_LOOT_INDEX as u8);
    caster.turn_commit = Some(tc);
    Ok(())
}

/// One step of the material scan: the lower of the running rarity and the
/// material's.
pub open spec fn lower_rarity(cur: ItemRarity, r: ItemRarity) -> ItemRarity {
    match r {
        ItemRarity::Common => ItemRarity::Common,
        ItemRarity::Rare => if cur != ItemRarity::Common { ItemRarity::Rare } else { cur },
        ItemRarity::Epic => if cur != ItemRarity::Common && cur != ItemRarity::Rare {
            ItemRarity::Epic
        } else {
            cur
        },
        ItemRarity::Legendary => cur,
    }
}

pub open spec fn rarity_of(it: Item) -> ItemRarity {
    match it.item_type {
        ItemType::Equipment { rarity, .. } => rarity,
        _ => ItemRarity::Common,
    }
}

pub open spec fn is_equipment(it: Item) -> bool {
    it.item_type is Equipment
}

pub open spec fn min_u8(a: u8, b: u8) -> u8 {
    if b < a { b } else { a }
}

/// What a craft commit records of its three materials on a tile of type `t`.
pub open spec fn crafting_snapshot_of(a: Item, b: Item, c: Item, t: TileType) -> CraftingSnapshot {
    CraftingSnapshot {
        min_level: min_u8(min_u8(min_u8(255, a.level), b.level), c.level),
        min_rarity: lower_rarity(
            lower_rarity(lower_rarity(ItemRarity::Legendary, rarity_of(a)), rarity_of(b)),
            rarity_of(c),
        ),
        max_rarity: if t == TileType::Legendary { ItemRarity::Legendary } else { ItemRarity::Epic },
    }
}

pub open spec fn craft_cost(c: Caster) -> int {
    (c.modifiers.tile_level + 1) * 5
}

/// Why a craft commit is refused, if it is.
pub open spec fn craft_error(game: Game, c: Caster, balances: Seq<u64>, a: Item, b: Item, d: Item) -> Option<ErrorCode> {
    let tc = base_commit(c.turn_commit, game.turn_info.turn);
    let (l, col) = acting_position(c, tc);
    let cost = craft_cost(c);
    if pending_other_turn(c.turn_commit, game.turn_info.turn) {
        Some(ErrorCode::PendingTurn)
    } else if tc.actions.crafting is Some {
        Some(ErrorCode::ActionAlreadyDone)
    } else if tile_at(game.map, l, col) is None {
        Some(ErrorCode::TileNotExists)
    } else if is_resource(tile_at(game.map, l, col).unwrap().tile_type) {
        Some(ErrorCode::NotCraftingTile)
    } else if balances[0] < cost || balances[1] < cost || balances[2] < cost {
        Some(ErrorCode::PlayerIsPoor)
    } else if !is_equipment(a) || !is_equipment(b) || !is_equipment(d) {
        Some(ErrorCode::InvalidItemType)
    } else {
        None
    }
}

fn lower_rarity_exec(cur: ItemRarity, r: ItemRarity) -> (out: ItemRarity)
    ensures
        out == lower_rarity(cur, r),
{
    match r {
        ItemRarity::Common => ItemRarity::Common,
        ItemRarity::Rare => if cur != ItemRarity::Common { ItemRarity::Rare } else { cur },
        ItemRarity::Epic => if cur != ItemRarity::Common && cur != ItemRarity::Rare {
            ItemRarity::Epic
        } else {
            cur
        },
        ItemRarity::Legendary => cur,
    }
}

/// Commits crafting on the crafting or legendary tile where the character
/// acts: it burns `(tile_level + 1) * 5` of each element, consumes three
/// equipment items and records their lowest level and rarity and the rarity
/// that the tile allows (legendary only on a legendary tile).
pub fn caster_commit_craft(
    game: &Game,
    turn_data: &mut TurnData,
    caster: &mut Caster,
    balances: [u64; 3],
    item_1: &mut Item,
    item_2: &mut Item,
    item_3: &mut Item,
) -> (r: Result<[u64; 3], ErrorCode>)
    requires
        burn_fits(
            *old(turn_data),
            base_commit(old(caster).turn_commit, game.turn_info.turn).resources_burned@,
            seq![craft_cost(*old(caster)) as u64, craft_cost(*old(caster)) as u64, craft_cost(*old(caster)) as u64],
        ),
        highest(base_commit(old(caster).turn_commit, game.turn_info.turn).actions.action_order@) < 255,
    ensures
        match craft_error(*game, *old(caster), balances@, *old(item_1), *old(item_2), *old(item_3)) {
            Some(e) => {
                &&& r == Err::<[u64; 3], ErrorCode>(e)
                &&& *final(caster) == *old(caster)
                &&& *final(turn_data) == *old(turn_data)
                &&& *final(item_1) == *old(item_1)
                &&& *final(item_2) == *old(item_2)
                &&& *final(item_3) == *old(item_3)
            },
            None => {
                let base = base_commit(old(caster).turn_commit, game.turn_info.turn);
                let cost = craft_cost(*old(caster)) as u64;
                let burn = seq![cost, cost, cost];
                let (l, col) = acting_position(*old(caster), base);
                &&& r matches Ok(b) && b@ == burn
                &&& *final(turn_data) == totals_after(*old(turn_data), burn)
                &&& same_but_commit(*final(caster), *old(caster))
                &&& final(caster).turn_commit matches Some(t) && {
                    &&& t.turn == base.turn
                    &&& t.resources_burned@ == plus(base.resources_burned@, burn)
                    &&& t.actions.action_order@ == recorded(base.actions.action_order@, ACTION_CRAFT_INDEX as int)
                    &&& t.actions.crafting == Some(crafting_snapshot_of(
                        *old(item_1),
                        *old(item_2),
                        *old(item_3),
                        tile_at(game.map, l, col).unwrap().tile_type,
                    ))
                    &&& t.actions.mv == base.actions.mv
                    &&& t.actions.loot == base.actions.loot
                    &&& t.actions.spell == base.actions.spell
                }
                &&& *final(item_1) == (Item { item_type: ItemType::Zombie, ..*old(item_1) })
                &&& *final(item_2) == (Item { item_type: ItemType::Zombie, ..*old(item_2) })
                &&& *final(item_3) == (Item { item_type: ItemType::Zombie, ..*old(item_3) })
            },
        },
{
    let mut tc = match current_commit(caster.turn_commit, game.turn_info.turn) {
        Ok(t) => t,
        Err(e) => return Err(e),
    };
    if tc.actions.crafting.is_some() {
        return Err(ErrorCode::ActionAlreadyDone);
    }
    let (l, col): (u8, u8) = match tc.actions.mv {
        Some(d) => (d[0], d[1]),
        None => (caster.modifiers.tile_level, caster.modifiers.tile_column),
    };
    let tile = match get_current_tile(&game.map, l, col) {
        Some(t) => t,
        None => return Err(ErrorCode::TileNotExists),
    };
    if tile.tile_type != TileType::Crafting && tile.tile_type != TileType::Legendary {
        return Err(ErrorCode::NotCraftingTile);
    }
    let cost: u64 = (caster.modifiers.tile_level as u64 + 1) * CRAFTING_COST_MULTIPLIER;
    if balances[0] < cost || balances[1] < cost || balances[2] < cost {
        return Err(ErrorCode::PlayerIsPoor);
    }
    let mut snapshot = CraftingSnapshot {
        min_level: u8::MAX,
        min_rarity: ItemRarity::Legendary,
        max_rarity: if tile.tile_type == TileType::Legendary {
            ItemRarity::Legendary
        } else {
            ItemRarity::Epic
        },
    };
    let materials: [Item; 3] = [*item_1, *item_2, *item_3];
    let mut k: usize = 0;
    while k < 3
        invariant
            0 <= k <= 3,
            materials@ == seq![*old(item_1), *old(item_2), *old(item_3)],
            *item_1 == *old(item_1),
            *item_2 == *old(item_2),
            *item_3 == *old(item_3),
            *caster == *old(caster),
            *turn_data == *old(turn_data),
            !pending_other_turn(old(caster).turn_commit, game.turn_info.turn),
            base_commit(old(caster).turn_commit, game.turn_info.turn).actions.crafting is None,
            acting_position(*old(caster), base_commit(old(caster).turn_commit, game.turn_info.turn))
                == (l, col),
            tile_at(game.map, l, col) == Some(tile),
            !is_resource(tile.tile_type),
            cost == craft_cost(*old(caster)),
            balances@[0] >= cost && balances@[1] >= cost && balances@[2] >= cost,
            forall|j: int| 0 <= j < k ==> is_equipment(#[trigger] materials@[j]),
            snapshot.max_rarity == (if tile.tile_type == TileType::Legendary {
                ItemRarity::Legendary
            } else {
                ItemRarity::Epic
            }),
            k == 0 ==> snapshot.min_level == 255 && snapshot.min_rarity == ItemRarity::Legendary,
            k == 1 ==> snapshot.min_level == min_u8(255, materials@[0].level)
                && snapshot.min_rarity == lower_rarity(ItemRarity::Legendary, rarity_of(materials@[0])),
            k == 2 ==> snapshot.min_level == min_u8(min_u8(255, materials@[0].level), materials@[1].level)
                && snapshot.min_rarity == lower_rarity(
                lower_rarity(ItemRarity::Legendary, rarity_of(materials@[0])),
                rarity_of(materials@[1]),
            ),
            k == 3 ==> snapshot == crafting_snapshot_of(
                materials@[0],
                materials@[1],
                materials@[2],
                tile.tile_type,
            ),
        decreases 3 - k,
    {
        let it = materials[k];
        if it.level < snapshot.min_level {
            snapshot.min_level = it.level;
        }
        match it.item_type {
            ItemType::Equipment { rarity, .. } => {
                snapshot.min_rarity = lower_rarity_exec(snapshot.min_rarity, rarity);
            },
            _ => {
                assert(!is_equipment(materials@[k as int]));
                assert(materials@[0] == *old(item_1) && materials@[1] == *old(item_2)
                    && materials@[2] == *old(item_3));
                assert(!is_equipment(*old(item_1)) || !is_equipment(*old(item_2)) || !is_equipment(
                    *old(item_3),
                )) by {
                    if k == 0 {
                    } else if k == 1 {
                    } else {
                    }
                }
                return Err(ErrorCode::InvalidItemType);
            },
        }
        k = k + 1;
    }
    let burn: [u64; 3] = [cost, cost, cost];
    assert(burn@ =~= seq![cost, cost, cost]);
    charge(turn_data, &mut tc, burn);
    tc.actions.crafting = Some(snapshot);
    tc.actions.add_new_action_order(ACTION_CRAFT_INDEX as u8);
    caster.turn_commit = Some(tc);
    zombify_account(item_1);
    zombify_account(item_2);
    zombify_account(item_3);
    Ok(burn)
}

/// Slot of the resource that a feature names: fire, water, earth; none for
/// power and magic.
pub open spec fn feature_slot(f: ItemFeature) -> int {
    match f {
        ItemFeature::Fire => 0,
        ItemFeature::Water => 1,
        ItemFeature::Earth => 2,
        _ => -1,
    }
}

/// What casting `book` burns.
pub open spec fn spell_burn(book: Item) -> Seq<u64> {
    match book.item_type {
        ItemType::SpellBook { cost_feature, cost, .. } => burn_in(feature_slot(cost_feature), cost as int),
        _ => seq![0u64, 0u64, 0u64],
    }
}

/// Why a spell commit is refused, if it is. `book`, at `book_key`, must be
/// the spell book that the character at `caster_key` has equipped.
pub open spec fn spell_error(
    game: Game,
    c: Caster,
    caster_key: Pubkey,
    balances: Seq<u64>,
    book: Item,
    book_key: Pubkey,
) -> Option<ErrorCode> {
    let tc = base_commit(c.turn_commit, game.turn_info.turn);
    if !is_key(c.modifiers.spell_book, book_key) || !is_key(book.equipped_owner, caster_key) {
        Some(ErrorCode::SpellKeyMismatch)
    } else if pending_other_turn(c.turn_commit, game.turn_info.turn) {
        Some(ErrorCode::PendingTurn)
    } else if tc.actions.spell is Some {
        Some(ErrorCode::ActionAlreadyDone)
    } else {
        match book.item_type {
            ItemType::SpellBook { cost_feature, cost, .. } => if feature_slot(cost_feature) < 0 {
                Some(ErrorCode::InvalidSpellCost)
            } else if balances[feature_slot(cost_feature)] < cost {
                Some(ErrorCode::PlayerIsPoor)
            } else {
                None
            },
            _ => Some(ErrorCode::InvalidItemType),
        }
    }
}

/// Commits casting the equipped spell book: it burns the book's cost in its
/// element; a craft spell rolls now (one draw) whether the coming craft gets
/// a level, the other spells act when redeemed. An item that is not a spell
/// book is refused as `InvalidItemType`.
pub fn caster_commit_spell(
    game: &Game,
    turn_data: &mut TurnData,
    caster: &mut Caster,
    caster_key: Pubkey,
    balances: [u64; 3],
    spellbook: &Item,
    book_key: Pubkey,
    rand: &mut RandomGenerator,
) -> (r: Result<[u64; 3], ErrorCode>)
    requires
        can_draw(*old(rand), 1),
        burn_fits(
            *old(turn_data),
            base_commit(old(caster).turn_commit, game.turn_info.turn).resources_burned@,
            spell_burn(*spellbook),
        ),
        highest(base_commit(old(caster).turn_commit, game.turn_info.turn).actions.action_order@) < 255,
    ensures
        match spell_error(*game, *old(caster), caster_key, balances@, *spellbook, book_key) {
            Some(e) => {
                &&& r == Err::<[u64; 3], ErrorCode>(e)
                &&& *final(caster) == *old(caster)
                &&& *final(turn_data) == *old(turn_data)
                &&& *final(rand) == *old(rand)
            },
            None => {
                let base = base_commit(old(caster).turn_commit, game.turn_info.turn);
                let (burn, snap, draws) = match spellbook.item_type {
                    ItemType::SpellBook { cost_feature, cost, spell, rarity, .. } => (
                        burn_in(feature_slot(cost_feature), cost as int),
                        Some(SpellSnapshot {
                            is_extra_level_bonus: spell == SpellType::Craft && fitted(
                                byte_at(*old(rand), 0),
                                1,
                                spell_odds(rarity),
                            ) == 1,
                        }),
                        if spell == SpellType::Craft { 1nat } else { 0nat },
                    ),
                    _ => (seq![0u64, 0u64, 0u64], None, 0nat),
                };
                &&& r matches Ok(b) && b@ == burn
                &&& *final(turn_data) == totals_after(*old(turn_data), burn)
                &&& *final(rand) == advanced_by(*old(rand), draws)
                &&& same_but_commit(*final(caster), *old(caster))
                &&& final(caster).turn_commit matches Some(t) && {
                    &&& t.turn == base.turn
                    &&& t.resources_burned@ == plus(base.resources_burned@, burn)
                    &&& t.actions.action_order@ == recorded(base.actions.action_order@, ACTION_SPELL_INDEX as int)
                    &&& t.actions.spell == snap
                    &&& t.actions.mv == base.actions.mv
                    &&& t.actions.loot == base.actions.loot
                    &&& t.actions.crafting == base.actions.crafting
                }
            },
        },
{
    let equipped_here = match caster.modifiers.spell_book {
        Some(k) => k == book_key,
        None => false,
    };
    let worn_by_caster = match spellbook.equipped_owner {
        Some(k) => k == caster_key,
        None => false,
    };
    if !equipped_here || !worn_by_caster {
        return Err(ErrorCode::SpellKeyMismatch);
    }
    let mut tc = match current_commit(caster.turn_commit, game.turn_info.turn) {
        Ok(t) => t,
        Err(e) => return Err(e),
    };
    if tc.actions.spell.is_some() {
        return Err(ErrorCode::ActionAlreadyDone);
    }
    match spellbook.item_type {
        ItemType::SpellBook { cost_feature, cost, spell, rarity, .. } => {
            let amount = cost as u64;
            let burn: [u64; 3] = match cost_feature {
                ItemFeature::Fire => [amount, 0, 0],
                ItemFeature::Water => [0, amount, 0],
                ItemFeature::Earth => [0, 0, amount],
                _ => return Err(ErrorCode::InvalidSpellCost),
            };
            assert(burn@ =~= burn_in(feature_slot(cost_feature), cost as int));
            match cost_feature {
                ItemFeature::Fire => if balances[0] < amount {
                    return Err(ErrorCode::PlayerIsPoor);
                },
                ItemFeature::Water => if balances[1] < amount {
                    return Err(ErrorCode::PlayerIsPoor);
                },
                _ => if balances[2] < amount {
                    return Err(ErrorCode::PlayerIsPoor);
                },
            }
            charge(turn_data, &mut tc, burn);
            let bonus = match spell {
                SpellType::Craft => is_spell_successful(rand, rarity),
                _ => false,
            };
            tc.actions.spell = Some(SpellSnapshot { is_extra_level_bonus: bonus });
            tc.actions.add_new_action_order(ACTION_SPELL_INDEX as u8);
            caster.turn_commit = Some(tc);
            Ok(burn)
        },
        _ => Err(ErrorCode::InvalidItemType),
    }
}

/// Why a manual burn is refused, if it is.
pub open spec fn manual_burn_error(game: Game, c: Caster, balances: Seq<u64>, f: ItemFeature, amount: u64) -> Option<ErrorCode> {
    if pending_other_turn(c.turn_commit, game.turn_info.turn) {
        Some(ErrorCode::PendingTurn)
    } else if feature_slot(f) < 0 {
        Some(ErrorCode::InvalidResourceTypeForBurn)
    } else if balances[feature_slot(f)] < amount {
        Some(ErrorCode::PlayerIsPoor)
    } else {
        None
    }
}

/// Burns resources of one element for experience and a share of the turn's
/// reward, without any action.
pub fn manual_resource_burn(
    game: &Game,
    turn_data: &mut TurnData,
    caster: &mut Caster,
    balances: [u64; 3],
    resource_type: ItemFeature,
    amount_to_burn: u64,
) -> (r: Result<[u64; 3], ErrorCode>)
    requires
        burn_fits(
            *old(turn_data),
            base_commit(old(caster).turn_commit, game.turn_info.turn).resources_burned@,
            burn_in(feature_slot(resource_type), amount_to_burn as int),
        ),
    ensures
        match manual_burn_error(*game, *old(caster), balances@, resource_type, amount_to_burn) {
            Some(e) => r == Err::<[u64; 3], ErrorCode>(e) && *final(caster) == *old(caster)
                && *final(turn_data) == *old(turn_data),
            None => {
                let base = base_commit(old(caster).turn_commit, game.turn_info.turn);
                let burn = burn_in(feature_slot(resource_type), amount_to_burn as int);
                &&& r matches Ok(b) && b@ == burn
                &&& *final(turn_data) == totals_after(*old(turn_data), burn)
                &&& same_but_commit(*final(caster), *old(caster))
                &&& final(caster).turn_commit matches Some(t) && {
                    &&& t.turn == base.turn
                    &&& t.resources_burned@ == plus(base.resources_burned@, burn)
                    &&& same_actions(t.actions, base.actions)
                }
            },
        },
{
    let mut tc = match current_commit(caster.turn_commit, game.turn_info.turn) {
        Ok(t) => t,
        Err(e) => return Err(e),
    };
    let burn: [u64; 3] = match resource_type {
        ItemFeature::Fire => [amount_to_burn, 0, 0],
        ItemFeature::Water => [0, amount_to_burn, 0],
        ItemFeature::Earth => [0, 0, amount_to_burn],
        _ => return Err(ErrorCode::InvalidResourceTypeForBurn),
    };
    assert(burn@ =~= burn_in(feature_slot(resource_type), amount_to_burn as int));
    let balance = match resource_type {
        ItemFeature::Fire => balances[0],
        ItemFeature::Water => balances[1],
        _ => balances[2],
    };
    if balance < amount_to_burn {
        return Err(ErrorCode::PlayerIsPoor);
    }
    charge(turn_data, &mut tc, burn);
    caster.turn_commit = Some(tc);
    Ok(burn)
}

/// Board levels count from 0 and character levels from 1: a character may
/// climb to the level below its own, never to its own. Climbing straight up
/// to that level onto an existing tile it can pay for is accepted.
pub proof fn lemma_move_level_boundary(game: Game, c: Caster, balances: Seq<u64>)
    requires
        1 <= c.level <= 30,
        c.modifiers.tile_level < c.level,
        !pending_other_turn(c.turn_commit, game.turn_info.turn),
        base_commit(c.turn_commit, game.turn_info.turn).actions.mv is None,
    ensures
        move_error(game, c, balances, c.level, c.modifiers.tile_column) == Some(ErrorCode::InvalidMove),
        ({
            let lvl = (c.level - 1) as u8;
            let tile = tile_at(game.map, lvl, c.modifiers.tile_column);
            (tile is Some && (is_resource(tile.unwrap().tile_type) ==> balances[resource_slot(
                tile.unwrap().tile_type,
            )] >= move_cost(lvl))) ==> move_error(game, c, balances, lvl, c.modifiers.tile_column)
                is None
        }),
{
}

} // verus!
