use vstd::prelude::*;

use crate::actions::{
    next_action, CraftingSnapshot, TurnCommit, ACTION_CRAFT_INDEX, ACTION_LOOT_INDEX,
    ACTION_MOVE_INDEX, ACTION_SPELL_INDEX, EARTH_INDEX, FIRE_INDEX, NO_ACTION, WATER_INDEX,
};
use crate::caster::{
    give_exp_to_caster_resources_burned, give_exp_to_caster_spell, is_key, is_spell_successful,
    leveled, spell_odds, Caster, Modifiers, PlayerBonuses, DEFAULT_MAGIC_FIND_IN_PERCENT,
};
use crate::enums::{ItemRarity, SpellType};
use crate::error::ErrorCode;
use crate::game::TurnData;
use crate::items::{equipment_shape, generate_new_equipment, zombify_account, Item, ItemType};
use crate::keys::Pubkey;
use crate::rng::{advanced_by, byte_at, can_draw, fitted, ne_fitted, window, RandomGenerator};
use crate::tile::{get_current_tile_feature, is_resource, TileType, TileTypeMap, MAX_LEVEL_1_BASED};
use crate::turn::{burn_in, resource_slot};

verus! {

/// Why redeeming the action in slot `index` (`NO_ACTION` for the reward)
/// is refused, if it is: there must be a commit, of a turn that is over,
/// whose next action in commit order is this one.
pub open spec fn redeem_error(game_turn: u32, tc: Option<TurnCommit>, index: int) -> Option<ErrorCode> {
    match tc {
        None => Some(ErrorCode::EmptyTurnCommit),
        Some(t) => if t.turn == game_turn {
            Some(ErrorCode::SameTurnRedeem)
        } else if next_action(t.actions.action_order@) != index {
            Some(ErrorCode::ActionOrderError)
        } else {
            None
        },
    }
}

/// Checks that the action in slot `index` may be redeemed now.
pub fn check_redeem(game_turn: u32, tc: &Option<TurnCommit>, index: usize) -> (r: Result<(), ErrorCode>)
    ensures
        match redeem_error(game_turn, *tc, index as int) {
            Some(e) => r == Err::<(), ErrorCode>(e),
            None => r is Ok,
        },
{
    match tc {
        None => Err(ErrorCode::EmptyTurnCommit),
        Some(t) => {
            if t.turn == game_turn {
                return Err(ErrorCode::SameTurnRedeem);
            }
            if t.actions.get_next_action_to_be_executed() != index {
                return Err(ErrorCode::ActionOrderError);
            }
            Ok(())
        },
    }
}

/// The commit with the slot of a redeemed action cleared.
pub open spec fn slot_cleared(a: TurnCommit, b: TurnCommit, index: int) -> bool {
    &&& b.turn == a.turn
    &&& b.resources_burned == a.resources_burned
    &&& b.actions.loot == a.actions.loot
    &&& b.actions.spell == a.actions.spell
    &&& b.actions.mv == a.actions.mv
    &&& b.actions.crafting == a.actions.crafting
    &&& b.actions.action_order@ == a.actions.action_order@.update(index, 0)
}

/// Clears the slot of a redeemed action.
fn clear_slot(caster: &mut Caster, index: usize)
    requires
        old(caster).turn_commit is Some,
        index < 4,
    ensures
        final(caster).turn_commit matches Some(t) && slot_cleared(
            old(caster).turn_commit.unwrap(),
            t,
            index as int,
        ),
        final(caster).version == old(caster).version,
        final(caster).level == old(caster).level,
        final(caster).experience == old(caster).experience,
        final(caster).owner == old(caster).owner,
        final(caster).modifiers == old(caster).modifiers,
{
    let mut t = caster.turn_commit.unwrap();
    t.actions.action_order[index] = 0;
    caster.turn_commit = Some(t);
}

/// A redeemed action cannot be redeemed again: once its slot is cleared the
/// same redeem is refused as out of order, and once the reward has cleared
/// the commit every redeem is refused for want of a commit.
pub proof fn lemma_redeem_twice_fails(game_turn: u32, before: TurnCommit, after: TurnCommit, index: int)
    requires
        0 <= index < 4,
        before.actions.action_order@.len() == 4,
        redeem_error(game_turn, Some(before), index) is None,
        slot_cleared(before, after, index),
    ensures
        redeem_error(game_turn, Some(after), index) == Some(ErrorCode::ActionOrderError),
        redeem_error(game_turn, None, index) == Some(ErrorCode::EmptyTurnCommit),
        redeem_error(game_turn, None, NO_ACTION as int) == Some(ErrorCode::EmptyTurnCommit),
{
    crate::actions::lemma_next_from(after.actions.action_order@, 0);
}

/// Redeems a committed move: the character stands on its destination.
pub fn caster_redeem_move(game_turn: u32, caster: &mut Caster) -> (r: Result<(), ErrorCode>)
    requires
        old(caster).turn_commit matches Some(t) ==> (t.actions.action_order@[ACTION_MOVE_INDEX as int]
            != 0 ==> t.actions.mv is Some),
    ensures
        match redeem_error(game_turn, old(caster).turn_commit, ACTION_MOVE_INDEX as int) {
            Some(e) => r == Err::<(), ErrorCode>(e) && *final(caster) == *old(caster),
            None => {
                let t = old(caster).turn_commit.unwrap();
                let d = t.actions.mv.unwrap();
                &&& r is Ok
                &&& final(caster).modifiers == (crate::caster::Modifiers {
                    tile_level: d[0],
                    tile_column: d[1],
                    ..old(caster).modifiers
                })
                &&& final(caster).turn_commit matches Some(n) && slot_cleared(t, n, ACTION_MOVE_INDEX as int)
                &&& final(caster).level == old(caster).level
                &&& final(caster).experience == old(caster).experience
                &&& final(caster).version == old(caster).version
                &&& final(caster).owner == old(caster).owner
            },
        },
{
    match check_redeem(game_turn, &caster.turn_commit, ACTION_MOVE_INDEX) {
        Err(e) => return Err(e),
        Ok(()) => {},
    }
    let t = caster.turn_commit.unwrap();
    proof {
        crate::actions::lemma_next_from(t.actions.action_order@, 0);
    }
    let d = t.actions.mv.unwrap();
    caster.modifiers.tile_level = d[0];
    caster.modifiers.tile_column = d[1];
    clear_slot(caster, ACTION_MOVE_INDEX);
    Ok(())
}

/// What a loot redeem yields.
#[derive(Clone, Copy, Debug)]
pub struct LootOutcome {
    /// Resources to mint: fire, water, earth.
    pub minted: [u64; 3],
    /// The chest found, if any.
    pub chest: Option<Item>,
}

/// Chest tier by the (0-based) level of the tile where it is found.
pub open spec fn chest_tier(tile_level: u8) -> u8 {
    if tile_level <= 4 {
        1
    } else if tile_level <= 9 {
        2
    } else if tile_level <= 14 {
        3
    } else if tile_level <= 30 {
        4
    } else {
        1
    }
}

/// The equipment bonus that raises the loot of a tile of type `t`.
pub open spec fn element_bonus(t: TileType, b: PlayerBonuses) -> int {
    match t {
        TileType::Earth => b.earth_chance as int,
        TileType::Fire => b.fire_chance as int,
        TileType::Water => b.water_chance as int,
        _ => 0,
    }
}

/// Upper bound of the base loot: `10 * (tile_level + 1)` plus the bonus.
pub open spec fn loot_max(t: TileType, tile_level: u8, b: PlayerBonuses) -> int {
    10 * (tile_level + 1) + element_bonus(t, b)
}

/// `out` is the loot that the rolls `base`, `crit` and `find` give: the base
/// amount, doubled when the critical roll is under the critical chance, and
/// a chest when the find roll is under 1000 plus the magic find bonus.
pub open spec fn loot_settles(
    out: LootOutcome,
    t: TileType,
    tile_level: u8,
    b: PlayerBonuses,
    base: int,
    crit: int,
    find: int,
    game: Pubkey,
    player: Pubkey,
) -> bool {
    &&& out.minted@ == burn_in(
        resource_slot(t),
        if crit < b.critical_chance { 2 * base } else { base },
    )
    &&& out.chest == if find < 1000 + b.magic_find_chance {
        Some(
            Item {
                game,
                owner: player,
                level: (tile_level + 1) as u8,
                item_type: ItemType::Chest { tier: chest_tier(tile_level) },
                equipped_owner: None,
            },
        )
    } else {
        None
    }
}

/// Settles a loot on a resource tile from its three rolls.
pub fn settle_loot(
    tile_type: TileType,
    tile_level: u8,
    bonuses: PlayerBonuses,
    base: u64,
    crit_roll: u16,
    find_roll: u16,
    game: Pubkey,
    player: Pubkey,
) -> (r: LootOutcome)
    requires
        is_resource(tile_type),
        base <= u32::MAX,
        tile_level < u8::MAX,
    ensures
        loot_settles(r, tile_type, tile_level, bonuses, base as int, crit_roll as int, find_roll as int, game, player),
{
    let amount: u64 = if crit_roll < bonuses.critical_chance { base * 2 } else { base };
    let minted: [u64; 3] = match tile_type {
        TileType::Fire => [amount, 0, 0],
        TileType::Water => [0, amount, 0],
        _ => [0, 0, amount],
    };
    assert(minted@ =~= burn_in(resource_slot(tile_type), amount as int));
    let chance: u32 = DEFAULT_MAGIC_FIND_IN_PERCENT as u32 + bonuses.magic_find_chance as u32;
    let chest = if (find_roll as u32) < chance {
        let tier: u8 = if tile_level <= 4 {
            1
        } else if tile_level <= 9 {
            2
        } else if tile_level <= 14 {
            3
        } else if tile_level <= 30 {
            4
        } else {
            1
        };
        Some(
            Item {
                game,
                owner: player,
                level: tile_level + 1,
                item_type: ItemType::Chest { tier },
                equipped_owner: None,
            },
        )
    } else {
        None
    };
    LootOutcome { minted, chest }
}

/// Why a loot redeem is refused, if it is.
pub open spec fn loot_redeem_error(game_turn: u32, c: Caster, snapshot: TileTypeMap) -> Option<ErrorCode> {
    let m = c.modifiers;
    if redeem_error(game_turn, c.turn_commit, ACTION_LOOT_INDEX as int) is Some {
        redeem_error(game_turn, c.turn_commit, ACTION_LOOT_INDEX as int)
    } else if type_at(snapshot, m.tile_level, m.tile_column) is None {
        Some(ErrorCode::TileNotExists)
    } else if !is_resource(type_at(snapshot, m.tile_level, m.tile_column).unwrap()) {
        Some(ErrorCode::InvalidTileForLooting)
    } else {
        None
    }
}

pub open spec fn type_at(map: TileTypeMap, level: u8, column: u8) -> Option<TileType> {
    if level < 30 && column < 3 {
        map@[level as int]@[column as int]
    } else {
        None
    }
}

/// Redeems a committed loot on the tile where the character stands, as it
/// was when the turn began (`snapshot`, the board saved for that turn): a
/// base amount drawn in `[1, loot_max]` (eight bytes), doubled on a critical
/// roll, and possibly a chest (two 16-bit rolls in `[100, 10000]`).
pub fn caster_redeem_loot(
    game_turn: u32,
    caster: &mut Caster,
    snapshot: &TileTypeMap,
    bonuses: PlayerBonuses,
    rand: &mut RandomGenerator,
    game: Pubkey,
    player: Pubkey,
) -> (r: Result<LootOutcome, ErrorCode>)
    requires
        old(caster).modifiers.tile_level < u8::MAX,
        can_draw(*old(rand), 12),
    ensures
        match loot_redeem_error(game_turn, *old(caster), *snapshot) {
            Some(e) => r == Err::<LootOutcome, ErrorCode>(e) && *final(caster) == *old(caster),
            None => {
                let m = old(caster).modifiers;
                let t = type_at(*snapshot, m.tile_level, m.tile_column).unwrap();
                &&& r matches Ok(out) && exists|base: int, crit: int, find: int|
                    ne_fitted(window(*old(rand), 8), base, 1, loot_max(t, m.tile_level, bonuses))
                    && ne_fitted(window(advanced_by(*old(rand), 8), 2), crit, 100, 10000)
                    && ne_fitted(window(advanced_by(*old(rand), 10), 2), find, 100, 10000)
                    && loot_settles(out, t, m.tile_level, bonuses, base, crit, find, game, player)
                &&& *final(rand) == advanced_by(*old(rand), 12)
                &&& final(caster).turn_commit matches Some(n) && slot_cleared(
                    old(caster).turn_commit.unwrap(),
                    n,
                    ACTION_LOOT_INDEX as int,
                )
                &&& final(caster).modifiers == old(caster).modifiers
                &&& final(caster).level == old(caster).level
                &&& final(caster).experience == old(caster).experience
            },
        },
{
    match check_redeem(game_turn, &caster.turn_commit, ACTION_LOOT_INDEX) {
        Err(e) => return Err(e),
        Ok(()) => {},
    }
    let tile_level = caster.modifiers.tile_level;
    let tile_type = match get_current_tile_feature(snapshot, tile_level, caster.modifiers.tile_column) {
        Some(t) => t,
        None => return Err(ErrorCode::TileNotExists),
    };
    let bonus: u64 = match tile_type {
        TileType::Earth => bonuses.earth_chance as u64,
        TileType::Fire => bonuses.fire_chance as u64,
        TileType::Water => bonuses.water_chance as u64,
        _ => return Err(ErrorCode::InvalidTileForLooting),
    };
    let max: u64 = 10 * (tile_level as u64 + 1) + bonus;
    let base = rand.random_within_range_u64(1, max);
    let crit = rand.random_within_range_u16(100, 10000);
    let find = rand.random_within_range_u16(100, 10000);
    let out = settle_loot(tile_type, tile_level, bonuses, base, crit, find, game, player);
    clear_slot(caster, ACTION_LOOT_INDEX);
    Ok(out)
}

/// Level and rarity of a crafted item before its other attributes are
/// rolled: a craft spell's bonus gives a level (rarity back to common);
/// else a roll of 5 in `[0, 10]` gives, on a 1 in `[1, 2]`, a level, and
/// otherwise one rarity step up to the tile's ceiling. No level past 30.
pub open spec fn crafted_grade(snap: CraftingSnapshot, bonus: bool, roll: int, coin: int) -> (u8, ItemRarity) {
    if bonus && snap.min_level < 30 {
        ((snap.min_level + 1) as u8, ItemRarity::Common)
    } else if roll == 5 {
        if coin == 1 && snap.min_level < 30 {
            ((snap.min_level + 1) as u8, ItemRarity::Common)
        } else {
            (snap.min_level, match snap.min_rarity {
                ItemRarity::Common => ItemRarity::Rare,
                ItemRarity::Rare => ItemRarity::Epic,
                ItemRarity::Epic => if snap.max_rarity == ItemRarity::Legendary {
                    ItemRarity::Legendary
                } else {
                    ItemRarity::Epic
                },
                ItemRarity::Legendary => ItemRarity::Legendary,
            })
        }
    } else {
        (snap.min_level, snap.min_rarity)
    }
}

/// Computes the grade of a crafted item from the snapshot, the spell bonus
/// and the two rolls.
pub fn craft_grade(snap: CraftingSnapshot, bonus: bool, roll: u8, coin: u8) -> (r: (u8, ItemRarity))
    ensures
        r == crafted_grade(snap, bonus, roll as int, coin as int),
{
    if bonus && snap.min_level < MAX_LEVEL_1_BASED {
        (snap.min_level + 1, ItemRarity::Common)
    } else if roll == 5 {
        if coin == 1 && snap.min_level < MAX_LEVEL_1_BASED {
            (snap.min_level + 1, ItemRarity::Common)
        } else {
            let rarity = match snap.min_rarity {
                ItemRarity::Common => ItemRarity::Rare,
                ItemRarity::Rare => ItemRarity::Epic,
                ItemRarity::Epic => if snap.max_rarity == ItemRarity::Legendary {
                    ItemRarity::Legendary
                } else {
                    ItemRarity::Epic
                },
                ItemRarity::Legendary => ItemRarity::Legendary,
            };
            (snap.min_level, rarity)
        }
    } else {
        (snap.min_level, snap.min_rarity)
    }
}

/// The spell bonus that a commit carries into its craft.
pub open spec fn spell_bonus(t: TurnCommit) -> bool {
    t.actions.spell matches Some(s) && s.is_extra_level_bonus
}

/// Redeems a committed craft into a new equipment item. The bonus path
/// draws nothing before the item; the roll path draws one byte, and a
/// second when the roll is 5.
pub fn caster_redeem_craft(
    game_turn: u32,
    caster: &mut Caster,
    rand: &mut RandomGenerator,
    game: Pubkey,
    player: Pubkey,
    item: &mut Item,
) -> (r: Result<(), ErrorCode>)
    requires
        old(caster).turn_commit matches Some(t) ==> (t.actions.action_order@[ACTION_CRAFT_INDEX as int]
            != 0 ==> (t.actions.crafting matches Some(s) && s.min_level >= 1)),
        can_draw(*old(rand), 6),
    ensures
        match redeem_error(game_turn, old(caster).turn_commit, ACTION_CRAFT_INDEX as int) {
            Some(e) => r == Err::<(), ErrorCode>(e) && *final(caster) == *old(caster) && *final(item)
                == *old(item) && *final(rand) == *old(rand),
            None => {
                let t = old(caster).turn_commit.unwrap();
                let snap = t.actions.crafting.unwrap();
                let bonus = spell_bonus(t) && snap.min_level < 30;
                let roll = fitted(byte_at(*old(rand), 0), 0, 10);
                let coin = fitted(byte_at(*old(rand), 1), 1, 2);
                let pre: nat = if bonus { 0 } else if roll == 5 { 2 } else { 1 };
                let (level, rarity) = crafted_grade(snap, spell_bonus(t), roll, coin);
                &&& r is Ok
                &&& equipment_shape(*final(item), game, player, level, Some(rarity), advanced_by(*old(rand), pre))
                &&& *final(rand) == advanced_by(*old(rand), pre + 4)
                &&& final(caster).turn_commit matches Some(n) && slot_cleared(t, n, ACTION_CRAFT_INDEX as int)
                &&& final(caster).modifiers == old(caster).modifiers
                &&& final(caster).level == old(caster).level
                &&& final(caster).experience == old(caster).experience
            },
        },
{
    match check_redeem(game_turn, &caster.turn_commit, ACTION_CRAFT_INDEX) {
        Err(e) => return Err(e),
        Ok(()) => {},
    }
    let t = caster.turn_commit.unwrap();
    proof {
        crate::actions::lemma_next_from(t.actions.action_order@, 0);
    }
    let snap = t.actions.crafting.unwrap();
    let bonus = match t.actions.spell {
        Some(s) => s.is_extra_level_bonus,
        None => false,
    };
    let (level, rarity) = if bonus && snap.min_level < MAX_LEVEL_1_BASED {
        craft_grade(snap, bonus, 0, 0)
    } else {
        let roll = rand.random_within_range_u8(0, 10);
        if roll == 5 {
            let coin = rand.random_within_range_u8(1, 2);
            craft_grade(snap, bonus, roll, coin)
        } else {
            craft_grade(snap, bonus, roll, 0)
        }
    };
    generate_new_equipment(item, game, player, level, Some(rarity), rand);
    clear_slot(caster, ACTION_CRAFT_INDEX);
    Ok(())
}

/// What a spell redeem yields besides experience.
#[derive(Clone, Copy, Debug)]
pub struct SpellOutcome {
    /// Resources to mint: fire, water, earth.
    pub minted: [u64; 3],
    /// A new equipment item was written to the item given.
    pub item_created: bool,
}

/// The spell worked: a draw in `[1, odds]` gave 1.
pub open spec fn spell_worked(book: Item, r: RandomGenerator) -> bool {
    book.item_type matches ItemType::SpellBook { rarity, .. } && fitted(byte_at(r, 0), 1, spell_odds(rarity)) == 1
}

pub open spec fn spell_slot(s: SpellType) -> int {
    match s {
        SpellType::Fire => 0,
        SpellType::Water => 1,
        SpellType::Earth => 2,
        _ => -1,
    }
}

/// Why a spell redeem is refused, if it is. `book_key` is the address of the
/// spell book handed in, if any.
pub open spec fn spell_redeem_error(game_turn: u32, c: Caster, book_key: Option<Pubkey>) -> Option<ErrorCode> {
    if redeem_error(game_turn, c.turn_commit, ACTION_SPELL_INDEX as int) is Some {
        redeem_error(game_turn, c.turn_commit, ACTION_SPELL_INDEX as int)
    } else if book_key is None {
        Some(ErrorCode::SpellAccountMissing)
    } else if !is_key(c.modifiers.spell_book, book_key.unwrap()) {
        Some(ErrorCode::SpellKeyMismatch)
    } else {
        None
    }
}

/// Redeems a committed spell with the equipped spell book: the spell works
/// with odds by rarity (one draw); then an elemental spell mints its value,
/// an experience spell gives it, an item spell makes equipment of the
/// book's level and rarity. Whatever the roll, the book is consumed and its
/// slot emptied.
pub fn caster_redeem_spell(
    game_turn: u32,
    caster: &mut Caster,
    book_key: Option<Pubkey>,
    spellbook: &mut Item,
    rand: &mut RandomGenerator,
    game: Pubkey,
    player: Pubkey,
    item: &mut Item,
) -> (r: Result<SpellOutcome, ErrorCode>)
    requires
        old(spellbook).item_type matches ItemType::SpellBook { spell, value, .. } ==> {
            &&& spell == SpellType::Item ==> old(spellbook).level >= 1
            &&& spell == SpellType::Experience ==> 1 <= old(caster).level && old(caster).experience
                + value <= u64::MAX
        },
        can_draw(*old(rand), 5),
    ensures
        match spell_redeem_error(game_turn, *old(caster), book_key) {
            Some(e) => {
                &&& r == Err::<SpellOutcome, ErrorCode>(e)
                &&& *final(caster) == *old(caster)
                &&& *final(spellbook) == *old(spellbook)
                &&& *final(item) == *old(item)
                &&& *final(rand) == *old(rand)
            },
            None => {
                let book = *old(spellbook);
                let worked = spell_worked(book, *old(rand));
                &&& r matches Ok(out) && {
                    match book.item_type {
                        ItemType::SpellBook { spell, value, rarity, .. } => {
                            &&& out.minted@ == if worked { burn_in(spell_slot(spell), value as int) } else { burn_in(-1, 0) }
                            &&& out.item_created == (worked && spell == SpellType::Item)
                            &&& final(caster).experience == if worked && spell == SpellType::Experience {
                                old(caster).experience + value
                            } else {
                                old(caster).experience as int
                            }
                            &&& final(caster).level == if worked && spell == SpellType::Experience {
                                leveled(old(caster).level as int, final(caster).experience as int)
                            } else {
                                old(caster).level as int
                            }
                            &&& if out.item_created {
                                &&& equipment_shape(*final(item), game, player, book.level, Some(rarity), advanced_by(*old(rand), 1))
                                &&& *final(rand) == advanced_by(*old(rand), 5)
                            } else {
                                &&& *final(item) == *old(item)
                                &&& *final(rand) == advanced_by(*old(rand), 1)
                            }
                        },
                        _ => {
                            &&& out.minted@ == burn_in(-1, 0)
                            &&& !out.item_created
                            &&& final(caster).experience == old(caster).experience
                            &&& final(caster).level == old(caster).level
                            &&& *final(item) == *old(item)
                            &&& *final(rand) == *old(rand)
                        },
                    }
                }
                &&& *final(spellbook) == (Item { item_type: ItemType::Zombie, ..book })
                &&& final(caster).modifiers == (Modifiers { spell_book: None, ..old(caster).modifiers })
                &&& final(caster).turn_commit matches Some(n) && slot_cleared(
                    old(caster).turn_commit.unwrap(),
                    n,
                    ACTION_SPELL_INDEX as int,
                )
            },
        },
{
    match check_redeem(game_turn, &caster.turn_commit, ACTION_SPELL_INDEX) {
        Err(e) => return Err(e),
        Ok(()) => {},
    }
    let key = match book_key {
        None => return Err(ErrorCode::SpellAccountMissing),
        Some(k) => k,
    };
    let matches_slot = match caster.modifiers.spell_book {
        Some(k) => k == key,
        None => false,
    };
    if !matches_slot {
        return Err(ErrorCode::SpellKeyMismatch);
    }
    let mut minted: [u64; 3] = [0, 0, 0];
    let mut item_created = false;
    match spellbook.item_type {
        ItemType::SpellBook { spell, value, rarity, .. } => {
            if is_spell_successful(rand, rarity) {
                match spell {
                    SpellType::Fire => {
                        minted = [value as u64, 0, 0];
                    },
                    SpellType::Water => {
                        minted = [0, value as u64, 0];
                    },
                    SpellType::Earth => {
                        minted = [0, 0, value as u64];
                    },
                    SpellType::Experience => {
                        give_exp_to_caster_spell(caster, value as u64);
                    },
                    SpellType::Item => {
                        generate_new_equipment(item, game, player, spellbook.level, Some(rarity), rand);
                        item_created = true;
                    },
                    SpellType::Craft => {},
                }
            }
            assert(minted@ =~= if spell_worked(*old(spellbook), *old(rand)) {
                burn_in(spell_slot(spell), value as int)
            } else {
                burn_in(-1, 0)
            });
        },
        _ => {
            assert(minted@ =~= burn_in(-1, 0));
        },
    }
    caster.modifiers.spell_book = None;
    zombify_account(spellbook);
    clear_slot(caster, ACTION_SPELL_INDEX);
    Ok(SpellOutcome { minted, item_created })
}

/// Reward tokens handed out per turn, split by share of resources burned.
pub const LADA_DISTRIBUTION_PER_TURN: u64 = 1_984_126_984_130;

/// A character's share of a turn's emission: its burned total over the
/// turn's (taken as 1 when nothing was burned), times the emission, rounded
/// down.
pub open spec fn emission_share(own: int, total: int) -> int {
    own * LADA_DISTRIBUTION_PER_TURN / if total == 0 { 1 } else { total }
}

/// The share of the turn's emission for `own` resources burned out of
/// `total` (saturated at the largest amount a transfer can carry).
///
/// The share is the exact floor of `own * emission / max(total, 1)`. It does
/// not go through floating point: a proportion computed in `f64`, multiplied
/// by the emission and truncated, can come out one unit lower (or, rarely,
/// higher) than this exact floor.
pub fn reward_amount(own: u128, total: u128) -> (r: u64)
    requires
        own <= 3 * u64::MAX,
    ensures
        r == if emission_share(own as int, total as int) <= u64::MAX {
            emission_share(own as int, total as int)
        } else {
            u64::MAX as int
        },
{
    let denominator: u128 = if total == 0 { 1 } else { total };
    assert(own * LADA_DISTRIBUTION_PER_TURN <= 3 * u64::MAX * LADA_DISTRIBUTION_PER_TURN) by (nonlinear_arith)
        requires
            own <= 3 * u64::MAX,
    ;
    let share: u128 = own * (LADA_DISTRIBUTION_PER_TURN as u128) / denominator;
    if share > u64::MAX as u128 {
        u64::MAX
    } else {
        share as u64
    }
}

pub open spec fn commit_total(t: TurnCommit) -> int {
    t.resources_burned@[0] + t.resources_burned@[1] + t.resources_burned@[2]
}

pub open spec fn turn_total(td: TurnData) -> int {
    td.resource_1_burned + td.resource_2_burned + td.resource_3_burned
}

/// Redeems the reward once every committed action is redeemed: experience
/// for all resources burned, the share of the turn's emission (returned, to
/// be transferred), and the character is free again.
pub fn caster_redeem_reward(game_turn: u32, caster: &mut Caster, turn_data: &TurnData) -> (r: Result<u64, ErrorCode>)
    requires
        1 <= old(caster).level,
        old(caster).turn_commit matches Some(t) ==> old(caster).experience + commit_total(t) <= u64::MAX,
    ensures
        match redeem_error(game_turn, old(caster).turn_commit, NO_ACTION as int) {
            Some(e) => r == Err::<u64, ErrorCode>(e) && *final(caster) == *old(caster),
            None => {
                let t = old(caster).turn_commit.unwrap();
                let share = emission_share(commit_total(t), turn_total(*turn_data));
                &&& r == Ok::<u64, ErrorCode>(if share <= u64::MAX { share as u64 } else { u64::MAX })
                &&& final(caster).experience == old(caster).experience + commit_total(t)
                &&& final(caster).level == leveled(old(caster).level as int, final(caster).experience as int)
                &&& final(caster).turn_commit is None
                &&& final(caster).modifiers == old(caster).modifiers
            },
        },
{
    match check_redeem(game_turn, &caster.turn_commit, NO_ACTION) {
        Err(e) => return Err(e),
        Ok(()) => {},
    }
    let t = caster.turn_commit.unwrap();
    let b = t.resources_burned;
    give_exp_to_caster_resources_burned(caster, Some(b[FIRE_INDEX]), Some(b[EARTH_INDEX]), Some(b[WATER_INDEX]));
    let own: u128 = b[0] as u128 + b[1] as u128 + b[2] as u128;
    let total: u128 = turn_data.resource_1_burned as u128 + turn_data.resource_2_burned as u128
        + turn_data.resource_3_burned as u128;
    let amount = reward_amount(own, total);
    caster.turn_commit = None;
    Ok(amount)
}

/// A turn in which nothing was burned yields no share, and no division by
/// zero: the denominator is taken as 1.
pub proof fn lemma_share_without_burns(own: int)
    requires
        own == 0,
    ensures
        emission_share(own, 0) == 0,
{
}

} // verus!
