use vstd::prelude::*;

use crate::actions::TurnCommit;
use crate::enums::{EquipmentType, ItemFeature, ItemRarity};
use crate::error::ErrorCode;
use crate::items::{Item, ItemType};
use crate::keys::Pubkey;
use crate::rng::{advanced_by, byte_at, can_draw, fitted, RandomGenerator};
use crate::tile::MAX_LEVEL_0_BASED;

verus! {

/// Experience needed to leave each level (index: level - 1).
pub const EXPERIENCE_REQUIRED_PER_LEVEL: [u64; 30] = [
    502, 2000, 4985, 9950, 17387, 27789, 41648, 59457, 81707, 108891, 141502, 180032, 224973,
    276818, 336059, 403189, 478700, 563084, 656833, 760441, 874399, 999200, 1135336, 1283300,
    1443584, 1616681, 1803082, 2003280, 2217768, 2447038,
];

/// Default critical chance, in basis points.
pub const DEFAULT_CRITICAL_CHANCE_IN_PERCENT: u16 = 200;

/// Default chance to find a chest, in basis points.
pub const DEFAULT_MAGIC_FIND_IN_PERCENT: u16 = 1000;

/// Where a character stands and what it has equipped.
#[derive(Clone, Copy, Debug)]
pub struct Modifiers {
    /// 0 to 29.
    pub tile_level: u8,
    /// 0 to 2.
    pub tile_column: u8,
    pub head: Option<Pubkey>,
    pub robe: Option<Pubkey>,
    pub staff: Option<Pubkey>,
    pub spell_book: Option<Pubkey>,
}

/// A character of a player.
#[derive(Clone, Copy, Debug)]
pub struct Caster {
    pub version: u8,
    /// 1 to 30.
    pub level: u8,
    pub experience: u64,
    /// The owning player.
    pub owner: Pubkey,
    pub modifiers: Modifiers,
    /// Present while a turn is committed and not fully redeemed; equipment
    /// cannot change meanwhile.
    pub turn_commit: Option<TurnCommit>,
}

/// What a character's equipment adds to its rolls.
#[derive(Clone, Copy, Debug, PartialEq, Eq, Structural)]
pub struct PlayerBonuses {
    /// Basis points.
    pub critical_chance: u16,
    /// Basis points.
    pub magic_find_chance: u16,
    /// Added to the upper bound of fire loot.
    pub fire_chance: u16,
    pub water_chance: u16,
    pub earth_chance: u16,
}

pub open spec fn same_key(a: Pubkey, b: Pubkey) -> bool {
    a.bytes@ == b.bytes@
}

pub open spec fn is_key(o: Option<Pubkey>, k: Pubkey) -> bool {
    o.is_some() && same_key(o.unwrap(), k)
}

/// The level reached from `level` with `exp` experience: one more for each
/// next threshold that `exp` reaches, up to level 30.
pub open spec fn leveled(level: int, exp: int) -> int
    decreases 30 - level,
{
    if 1 <= level <= 29 && exp >= EXPERIENCE_REQUIRED_PER_LEVEL@[level - 1] {
        leveled(level + 1, exp)
    } else {
        level
    }
}

/// Adds experience and raises the level through every threshold reached.
fn add_experience(caster: &mut Caster, gain: u64)
    requires
        1 <= old(caster).level,
        old(caster).experience + gain <= u64::MAX,
    ensures
        final(caster).experience == old(caster).experience + gain,
        final(caster).level == leveled(old(caster).level as int, final(caster).experience as int),
        final(caster).version == old(caster).version,
        final(caster).owner == old(caster).owner,
        final(caster).modifiers == old(caster).modifiers,
        final(caster).turn_commit == old(caster).turn_commit,
{
    caster.experience = caster.experience + gain;
    while caster.level <= MAX_LEVEL_0_BASED && caster.experience
        >= EXPERIENCE_REQUIRED_PER_LEVEL[(caster.level - 1) as usize]
        invariant
            1 <= caster.level,
            leveled(caster.level as int, caster.experience as int) == leveled(
                old(caster).level as int,
                caster.experience as int,
            ),
            caster.experience == old(caster).experience + gain,
            caster.version == old(caster).version,
            caster.owner == old(caster).owner,
            caster.modifiers == old(caster).modifiers,
            caster.turn_commit == old(caster).turn_commit,
        decreases 255 - caster.level,
    {
        caster.level = caster.level + 1;
    }
}

pub open spec fn burned_amount(b: Option<u64>) -> int {
    match b {
        Some(v) => v as int,
        None => 0,
    }
}

/// Gives the experience of the resources burned in a turn (absent amounts
/// count as 0) and levels up through every threshold reached.
pub fn give_exp_to_caster_resources_burned(
    caster: &mut Caster,
    fire_burned: Option<u64>,
    earth_burned: Option<u64>,
    water_burned: Option<u64>,
)
    requires
        1 <= old(caster).level,
        old(caster).experience + burned_amount(fire_burned) + burned_amount(earth_burned)
            + burned_amount(water_burned) <= u64::MAX,
    ensures
        final(caster).experience == old(caster).experience + burned_amount(fire_burned)
            + burned_amount(earth_burned) + burned_amount(water_burned),
        final(caster).level == leveled(old(caster).level as int, final(caster).experience as int),
        final(caster).version == old(caster).version,
        final(caster).owner == old(caster).owner,
        final(caster).modifiers == old(caster).modifiers,
        final(caster).turn_commit == old(caster).turn_commit,
{
    let f = match fire_burned {
        Some(v) => v,
        None => 0,
    };
    let e = match earth_burned {
        Some(v) => v,
        None => 0,
    };
    let w = match water_burned {
        Some(v) => v,
        None => 0,
    };
    add_experience(caster, f + e + w);
}

/// Gives the experience of an experience spell and levels up through every
/// threshold reached.
pub fn give_exp_to_caster_spell(caster: &mut Caster, value: u64)
    requires
        1 <= old(caster).level,
        old(caster).experience + value <= u64::MAX,
    ensures
        final(caster).experience == old(caster).experience + value,
        final(caster).level == leveled(old(caster).level as int, final(caster).experience as int),
        final(caster).version == old(caster).version,
        final(caster).owner == old(caster).owner,
        final(caster).modifiers == old(caster).modifiers,
        final(caster).turn_commit == old(caster).turn_commit,
{
    add_experience(caster, value);
}

/// Sides of the die that a spell of this rarity rolls.
pub open spec fn spell_odds(r: ItemRarity) -> int {
    match r {
        ItemRarity::Common => 8,
        ItemRarity::Rare => 6,
        ItemRarity::Epic => 4,
        ItemRarity::Legendary => 2,
    }
}

/// A spell works when a draw in `[1, n]` gives 1, `n` being 8, 6, 4 or 2
/// from common to legendary.
pub fn is_spell_successful(rand: &mut RandomGenerator, spell_book_rarity: ItemRarity) -> (r: bool)
    requires
        can_draw(*old(rand), 1),
    ensures
        *final(rand) == advanced_by(*old(rand), 1),
        r == (fitted(byte_at(*old(rand), 0), 1, spell_odds(spell_book_rarity)) == 1),
{
    let max_range: u8 = match spell_book_rarity {
        ItemRarity::Common => 8,
        ItemRarity::Rare => 6,
        ItemRarity::Epic => 4,
        ItemRarity::Legendary => 2,
    };
    rand.random_within_range_u8(1, max_range) == 1
}

/// The modifiers with the slot that `t` occupies set to `v`; `None` when
/// the item cannot be equipped.
pub open spec fn with_slot(m: Modifiers, t: ItemType, v: Option<Pubkey>) -> Option<Modifiers> {
    match t {
        ItemType::Equipment { equipment_type, .. } => match equipment_type {
            EquipmentType::Head => Some(Modifiers { head: v, ..m }),
            EquipmentType::Robe => Some(Modifiers { robe: v, ..m }),
            EquipmentType::Staff => Some(Modifiers { staff: v, ..m }),
        },
        ItemType::SpellBook { .. } => Some(Modifiers { spell_book: v, ..m }),
        _ => None,
    }
}

/// The slot that `t` occupies is taken.
pub open spec fn slot_taken(m: Modifiers, t: ItemType) -> bool {
    match t {
        ItemType::Equipment { equipment_type, .. } => match equipment_type {
            EquipmentType::Head => m.head.is_some(),
            EquipmentType::Robe => m.robe.is_some(),
            EquipmentType::Staff => m.staff.is_some(),
        },
        ItemType::SpellBook { .. } => m.spell_book.is_some(),
        _ => false,
    }
}

/// Why equipping `item` on a character is refused, if it is.
pub open spec fn equip_error(caster: Caster, item: Item) -> Option<ErrorCode> {
    if item.equipped_owner.is_some() {
        Some(ErrorCode::ItemAlreadyInUse)
    } else if item.level > caster.level {
        Some(ErrorCode::ItemLevelTooHigh)
    } else if caster.turn_commit.is_some() {
        Some(ErrorCode::NoEquipUnequipOnPendingTurn)
    } else if with_slot(caster.modifiers, item.item_type, None).is_none() {
        Some(ErrorCode::InvalidEquipItemType)
    } else if slot_taken(caster.modifiers, item.item_type) {
        Some(ErrorCode::ItemTypeAlreadyEquipped)
    } else {
        None
    }
}

/// Equips a free item of at most the character's level in its empty slot,
/// while no turn is pending.
pub fn equip_item(caster: &mut Caster, caster_key: Pubkey, item: &mut Item, item_key: Pubkey) -> (r: Result<(), ErrorCode>)
    ensures
        match equip_error(*old(caster), *old(item)) {
            Some(e) => r == Err::<(), ErrorCode>(e) && *final(caster) == *old(caster) && *final(item)
                == *old(item),
            None => {
                &&& r is Ok
                &&& *final(caster) == (Caster {
                    modifiers: with_slot(old(caster).modifiers, old(item).item_type, Some(item_key)).unwrap(),
                    ..*old(caster)
                })
                &&& *final(item) == (Item { equipped_owner: Some(caster_key), ..*old(item) })
            },
        },
{
    if item.equipped_owner.is_some() {
        return Err(ErrorCode::ItemAlreadyInUse);
    }
    if item.level > caster.level {
        return Err(ErrorCode::ItemLevelTooHigh);
    }
    if caster.turn_commit.is_some() {
        return Err(ErrorCode::NoEquipUnequipOnPendingTurn);
    }
    match item.item_type {
        ItemType::Equipment { equipment_type, .. } => match equipment_type {
            EquipmentType::Head => {
                if caster.modifiers.head.is_some() {
                    return Err(ErrorCode::ItemTypeAlreadyEquipped);
                }
                caster.modifiers.head = Some(item_key);
            },
            EquipmentType::Staff => {
                if caster.modifiers.staff.is_some() {
                    return Err(ErrorCode::ItemTypeAlreadyEquipped);
                }
                caster.modifiers.staff = Some(item_key);
            },
            EquipmentType::Robe => {
                if caster.modifiers.robe.is_some() {
                    return Err(ErrorCode::ItemTypeAlreadyEquipped);
                }
                caster.modifiers.robe = Some(item_key);
            },
        },
        ItemType::SpellBook { .. } => {
            if caster.modifiers.spell_book.is_some() {
                return Err(ErrorCode::ItemTypeAlreadyEquipped);
            }
            caster.modifiers.spell_book = Some(item_key);
        },
        _ => {
            return Err(ErrorCode::InvalidEquipItemType);
        },
    }
    item.equipped_owner = Some(caster_key);
    Ok(())
}

pub open spec fn unequip_error(caster: Caster, caster_key: Pubkey, item: Item) -> Option<ErrorCode> {
    if !is_key(item.equipped_owner, caster_key) {
        Some(ErrorCode::ItemNotExists)
    } else if caster.turn_commit.is_some() {
        Some(ErrorCode::NoEquipUnequipOnPendingTurn)
    } else if with_slot(caster.modifiers, item.item_type, None).is_none() {
        Some(ErrorCode::InvalidEquipItemType)
    } else {
        None
    }
}

/// Takes off an item that this character wears, while no turn is pending.
pub fn unequip_item(caster: &mut Caster, caster_key: Pubkey, item: &mut Item) -> (r: Result<(), ErrorCode>)
    ensures
        match unequip_error(*old(caster), caster_key, *old(item)) {
            Some(e) => r == Err::<(), ErrorCode>(e) && *final(caster) == *old(caster) && *final(item)
                == *old(item),
            None => {
                &&& r is Ok
                &&& *final(caster) == (Caster {
                    modifiers: with_slot(old(caster).modifiers, old(item).item_type, None).unwrap(),
                    ..*old(caster)
                })
                &&& *final(item) == (Item { equipped_owner: None, ..*old(item) })
            },
        },
{
    let worn = match item.equipped_owner {
        None => false,
        Some(k) => k == caster_key,
    };
    if !worn {
        return Err(ErrorCode::ItemNotExists);
    }
    if caster.turn_commit.is_some() {
        return Err(ErrorCode::NoEquipUnequipOnPendingTurn);
    }
    match item.item_type {
        ItemType::Equipment { equipment_type, .. } => match equipment_type {
            EquipmentType::Head => {
                caster.modifiers.head = None;
            },
            EquipmentType::Robe => {
                caster.modifiers.robe = None;
            },
            EquipmentType::Staff => {
                caster.modifiers.staff = None;
            },
        },
        ItemType::SpellBook { .. } => {
            caster.modifiers.spell_book = None;
        },
        _ => {
            return Err(ErrorCode::InvalidEquipItemType);
        },
    }
    item.equipped_owner = None;
    Ok(())
}

/// The slot of `m` that an equipment item of type `t` occupies.
pub open spec fn slot_of(m: Modifiers, t: EquipmentType) -> Option<Pubkey> {
    match t {
        EquipmentType::Head => m.head,
        EquipmentType::Robe => m.robe,
        EquipmentType::Staff => m.staff,
    }
}

/// The feature and value that an entry adds to the bonuses: an equipment
/// item of this game and player, equipped by this character in its slot.
pub open spec fn counted_bonus(
    m: Modifiers,
    entry: Option<(Pubkey, Item)>,
    game: Pubkey,
    player: Pubkey,
    caster: Pubkey,
) -> Option<(ItemFeature, u16)> {
    match entry {
        None => None,
        Some((key, it)) => if same_key(it.owner, player) && is_key(it.equipped_owner, caster)
            && same_key(it.game, game) {
            match it.item_type {
                ItemType::Equipment { feature, value, equipment_type, .. } => if is_key(
                    slot_of(m, equipment_type),
                    key,
                ) {
                    Some((feature, value))
                } else {
                    None
                },
                _ => None,
            }
        } else {
            None
        },
    }
}

/// Sum of the values of feature `f` that the first `n` entries add.
pub open spec fn bonus_sum(
    m: Modifiers,
    entries: Seq<Option<(Pubkey, Item)>>,
    n: int,
    game: Pubkey,
    player: Pubkey,
    caster: Pubkey,
    f: ItemFeature,
) -> int
    decreases n,
{
    if n <= 0 {
        0
    } else {
        bonus_sum(m, entries, n - 1, game, player, caster, f) + match counted_bonus(
            m,
            entries[n - 1],
            game,
            player,
            caster,
        ) {
            Some((g, v)) => if g == f { v as int } else { 0 },
            None => 0,
        }
    }
}

proof fn lemma_bonus_sum_bound(
    m: Modifiers,
    entries: Seq<Option<(Pubkey, Item)>>,
    n: int,
    game: Pubkey,
    player: Pubkey,
    caster: Pubkey,
    f: ItemFeature,
)
    requires
        0 <= n <= entries.len(),
        forall|i: int| 0 <= i < entries.len() ==> entry_value_bounded(#[trigger] entries[i]),
    ensures
        0 <= bonus_sum(m, entries, n, game, player, caster, f) <= 20000 * n,
    decreases n,
{
    if n > 0 {
        lemma_bonus_sum_bound(m, entries, n - 1, game, player, caster, f);
        assert(entry_value_bounded(entries[n - 1]));
    }
}

/// The value of an entry's item is at most 20000 (no item of the game
/// comes near it); several such values then fit a 16-bit total.
pub open spec fn entry_value_bounded(e: Option<(Pubkey, Item)>) -> bool {
    match e {
        Some((_, it)) => match it.item_type {
            ItemType::Equipment { value, .. } => value <= 20000,
            _ => true,
        },
        None => true,
    }
}

/// The bonuses that a character's worn equipment gives. Each entry is an
/// item with its address, or none where the account given is not an item.
pub fn get_player_bonuses(
    modifiers: &Modifiers,
    item_accounts: &Vec<Option<(Pubkey, Item)>>,
    game: Pubkey,
    player: Pubkey,
    caster: Pubkey,
) -> (r: PlayerBonuses)
    requires
        item_accounts@.len() <= 3,
        forall|i: int| 0 <= i < item_accounts@.len() ==> entry_value_bounded(#[trigger] item_accounts@[i]),
    ensures
        r.critical_chance == DEFAULT_CRITICAL_CHANCE_IN_PERCENT + bonus_sum(*modifiers, item_accounts@, item_accounts@.len() as int, game, player, caster, ItemFeature::Power),
        r.magic_find_chance == bonus_sum(*modifiers, item_accounts@, item_accounts@.len() as int, game, player, caster, ItemFeature::Magic),
        r.fire_chance == bonus_sum(*modifiers, item_accounts@, item_accounts@.len() as int, game, player, caster, ItemFeature::Fire),
        r.water_chance == bonus_sum(*modifiers, item_accounts@, item_accounts@.len() as int, game, player, caster, ItemFeature::Water),
        r.earth_chance == bonus_sum(*modifiers, item_accounts@, item_accounts@.len() as int, game, player, caster, ItemFeature::Earth),
{
    let mut b = PlayerBonuses {
        critical_chance: DEFAULT_CRITICAL_CHANCE_IN_PERCENT,
        magic_find_chance: 0,
        fire_chance: 0,
        water_chance: 0,
        earth_chance: 0,
    };
    let ghost m = *modifiers;
    let ghost es = item_accounts@;
    let mut i: usize = 0;
    while i < item_accounts.len()
        invariant
            0 <= i <= es.len(),
            es == item_accounts@,
            m == *modifiers,
            es.len() <= 3,
            forall|k: int| 0 <= k < es.len() ==> entry_value_bounded(#[trigger] es[k]),
            b.critical_chance == 200 + bonus_sum(m, es, i as int, game, player, caster, ItemFeature::Power),
            b.magic_find_chance == bonus_sum(m, es, i as int, game, player, caster, ItemFeature::Magic),
            b.fire_chance == bonus_sum(m, es, i as int, game, player, caster, ItemFeature::Fire),
            b.water_chance == bonus_sum(m, es, i as int, game, player, caster, ItemFeature::Water),
            b.earth_chance == bonus_sum(m, es, i as int, game, player, caster, ItemFeature::Earth),
        decreases es.len() - i,
    {
        proof {
            lemma_bonus_sum_bound(m, es, i as int + 1, game, player, caster, ItemFeature::Power);
            lemma_bonus_sum_bound(m, es, i as int + 1, game, player, caster, ItemFeature::Magic);
            lemma_bonus_sum_bound(m, es, i as int + 1, game, player, caster, ItemFeature::Fire);
            lemma_bonus_sum_bound(m, es, i as int + 1, game, player, caster, ItemFeature::Water);
            lemma_bonus_sum_bound(m, es, i as int + 1, game, player, caster, ItemFeature::Earth);
        }
        match item_accounts[i] {
            None => {},
            Some((key, it)) => {
                let equipped_here = match it.equipped_owner {
                    Some(k) => k == caster,
                    None => false,
                };
                if it.owner == player && equipped_here && it.game == game {
                    match it.item_type {
                        ItemType::Equipment { feature, value, equipment_type, .. } => {
                            let slot = match equipment_type {
                                EquipmentType::Head => modifiers.head,
                                EquipmentType::Staff => modifiers.staff,
                                EquipmentType::Robe => modifiers.robe,
                            };
                            let in_slot = match slot {
                                Some(k) => k == key,
                                None => false,
                            };
                            if in_slot {
                                match feature {
                                    ItemFeature::Fire => b.fire_chance = b.fire_chance + value,
                                    ItemFeature::Water => b.water_chance = b.water_chance + value,
                                    ItemFeature::Earth => b.earth_chance = b.earth_chance + value,
                                    ItemFeature::Magic => b.magic_find_chance = b.magic_find_chance + value,
                                    ItemFeature::Power => b.critical_chance = b.critical_chance + value,
                                }
                            }
                        },
                        _ => {},
                    }
                }
            },
        }
        i = i + 1;
    }
    b
}

} // verus!
